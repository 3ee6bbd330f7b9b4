//! Records of the endpoint-management directory.

use crate::config::AzureConfig;
use crate::netbox::api::{Method, NetBoxResponse, PageReply, Request, RequestView};
use vstd::prelude::*;

verus! {

/// A managed device as the directory reports it.
#[derive(Debug, PartialEq, Eq)]
pub struct IntuneDevice {
    pub name: String,
    pub enrolled: String,
    pub synced: String,
    pub os: String,
    pub os_version: String,
    pub management_agend: String,
    pub user: String,
    pub model: String,
    pub manufacturer: String,
    pub serial: String,
    pub wifi_mac: String,
    pub total_storage: usize,
    pub free_storage: usize,
}

/// A directory user.
#[derive(Debug, PartialEq, Eq)]
pub struct IntuneUser {
    pub name: String,
    pub mail: Option<String>,
    pub title: Option<String>,
}

/// The directory as requests see it: its address and the token that it
/// accepts.
#[derive(Debug, PartialEq, Eq)]
pub struct AzureClient {
    pub token: Option<String>,
    pub url: String,
}

/// The scope for which a token is asked.
pub const TOKEN_SCOPE: &'static str = "https://graph.microsoft.com/.default";

/// The grant by which a token is asked.
pub const TOKEN_GRANT: &'static str = "client_credentials";

/// The text of a member of a JSON document: the text where the document is an
/// object with a member of that name whose value is a string, nothing where it
/// is valid JSON of any other shape, and the parser's complaint where it is
/// not valid JSON.
pub uninterp spec fn json_member_text(document: Seq<char>, member: Seq<char>) -> Result<
    Option<Seq<char>>,
    Seq<char>,
>;

/// What was read of a member, as text.
pub open spec fn read_text(read: Result<Option<String>, String>) -> Result<
    Option<Seq<char>>,
    Seq<char>,
> {
    match read {
        Ok(Some(text)) => Ok(Some(text@)),
        Ok(None) => Ok(None),
        Err(complaint) => Err(complaint@),
    }
}

/// `serde_json::from_str` parses the document into a `Value`; indexing the
/// value by the member's name and `Value::as_str` give the member's string.
/// The same document and name always read the same.
#[verifier::external_body]
fn json_member(document: &str, member: &str) -> (read: Result<Option<String>, String>)
    ensures
        read_text(read) == json_member_text(document@, member@),
{
    match serde_json::from_str::<serde_json::Value>(document) {
        Ok(value) => Ok(value[member].as_str().map(|text| text.to_string())),
        Err(error) => Err(error.to_string()),
    }
}

/// Why no token was obtained.
#[derive(Debug, PartialEq, Eq)]
pub enum TokenError {
    /// The answer was not JSON; the parser's complaint is kept.
    NotJson(String),
    /// The answer held no token; its description of the error is kept, where
    /// it gave one.
    Refused(Option<String>),
}

/// Why no token was obtained, with the texts kept.
pub enum TokenErrorView {
    NotJson(Seq<char>),
    Refused(Option<Seq<char>>),
}

impl View for TokenError {
    type V = TokenErrorView;

    open spec fn view(&self) -> TokenErrorView {
        match *self {
            TokenError::NotJson(complaint) => TokenErrorView::NotJson(complaint@),
            TokenError::Refused(Some(description)) => TokenErrorView::Refused(Some(description@)),
            TokenError::Refused(None) => TokenErrorView::Refused(None),
        }
    }
}

impl TokenError {
    /// The error in words.
    pub open spec fn text(self) -> Seq<char> {
        match self {
            TokenError::NotJson(complaint) => "Failed to parse response as JSON: "@ + complaint@,
            TokenError::Refused(Some(description)) => "Failed to retrieve token: "@
                + description@,
            TokenError::Refused(None) => "Failed to retrieve token: "@
                + "No error description provided"@,
        }
    }

    pub fn message(&self) -> (text: String)
        ensures
            text@ == self.text(),
    {
        match self {
            TokenError::NotJson(complaint) => {
                let mut text = String::from_str("Failed to parse response as JSON: ");
                text.append(complaint.as_str());
                text
            },
            TokenError::Refused(Some(description)) => {
                let mut text = String::from_str("Failed to retrieve token: ");
                text.append(description.as_str());
                text
            },
            TokenError::Refused(None) => {
                let mut text = String::from_str("Failed to retrieve token: ");
                text.append("No error description provided");
                text
            },
        }
    }
}

/// The token that an answer holds, given what was read of its members
/// `access_token` and `error_description`.
pub open spec fn token_of(
    access: Result<Option<Seq<char>>, Seq<char>>,
    description: Result<Option<Seq<char>>, Seq<char>>,
) -> Result<Seq<char>, TokenErrorView> {
    match access {
        Err(complaint) => Err(TokenErrorView::NotJson(complaint)),
        Ok(Some(token)) => Ok(token),
        Ok(None) => Err(
            TokenErrorView::Refused(
                match description {
                    Ok(Some(text)) => Some(text),
                    _ => None,
                },
            ),
        ),
    }
}

/// What was obtained, as text.
pub open spec fn token_text(obtained: Result<String, TokenError>) -> Result<
    Seq<char>,
    TokenErrorView,
> {
    match obtained {
        Ok(token) => Ok(token@),
        Err(error) => Err(error@),
    }
}

/// The token that an answer holds, given what was read of its members
/// `access_token` and `error_description`.
pub fn token_from(
    access: Result<Option<String>, String>,
    description: Result<Option<String>, String>,
) -> (obtained: Result<String, TokenError>)
    ensures
        token_text(obtained) == token_of(read_text(access), read_text(description)),
{
    match access {
        Err(complaint) => Err(TokenError::NotJson(complaint)),
        Ok(Some(token)) => Ok(token),
        Ok(None) => Err(
            TokenError::Refused(
                match description {
                    Ok(Some(text)) => Some(text),
                    _ => None,
                },
            ),
        ),
    }
}

/// Reads the answer for a page of a directory listing: the page where the
/// status is 200, with the records that it holds and the link that it names,
/// and a refusal otherwise.
pub fn page_reply<T>(status: u16, value: Vec<T>, next: Option<String>) -> (reply: PageReply<T>)
    ensures
        reply == if status == 200 {
            PageReply::Page(NetBoxResponse { count: 0, next, results: value })
        } else {
            PageReply::Refused(status)
        },
{
    if status == 200 {
        PageReply::Page(NetBoxResponse { count: 0, next, results: value })
    } else {
        PageReply::Refused(status)
    }
}

/// The address at which a tenant's tokens are issued.
pub open spec fn token_url(tenant_id: Seq<char>) -> Seq<char> {
    "https://login.microsoftonline.com/"@ + tenant_id + "/oauth2/v2.0/token"@
}

impl AzureClient {
    /// The directory at the configured address, with the token obtained for
    /// it.
    pub fn new(config: &AzureConfig, token: String) -> (client: Self)
        ensures
            client.url == config.url,
            client.token == Some(token),
    {
        AzureClient { url: config.url.clone(), token: Some(token) }
    }

    /// The request that asks for a token: where it goes. Its form is given by
    /// `token_form`.
    pub fn token_request(config: &AzureConfig) -> (request: Request)
        ensures
            request@ == (RequestView {
                method: Method::Post,
                url: token_url(config.tenant_id@),
                query: None,
                authorization: None,
            }),
    {
        let mut url = String::from_str("https://login.microsoftonline.com/");
        url.append(config.tenant_id.as_str());
        url.append("/oauth2/v2.0/token");
        Request { method: Method::Post, url, query: None, authorization: None }
    }

    /// The form that asks for a token: client, secret, scope and grant.
    pub fn token_form(config: &AzureConfig) -> (form: Vec<(&'static str, String)>)
        ensures
            form@.len() == 4,
            form@[0].0@ == "client_id"@ && form@[0].1 == config.client_id,
            form@[1].0@ == "client_secret"@ && form@[1].1 == config.client_secret,
            form@[2].0@ == "scope"@ && form@[2].1@ == TOKEN_SCOPE@,
            form@[3].0@ == "grant_type"@ && form@[3].1@ == TOKEN_GRANT@,
    {
        let mut form: Vec<(&'static str, String)> = Vec::new();
        form.push(("client_id", config.client_id.clone()));
        form.push(("client_secret", config.client_secret.clone()));
        form.push(("scope", String::from_str(TOKEN_SCOPE)));
        form.push(("grant_type", String::from_str(TOKEN_GRANT)));
        form
    }

    /// Reads the answer to a request for a token: the token where the answer
    /// holds one, else why there is none.
    pub fn fetch_token(body: &str) -> (obtained: Result<String, TokenError>)
        ensures
            token_text(obtained) == token_of(
                json_member_text(body@, "access_token"@),
                json_member_text(body@, "error_description"@),
            ),
    {
        let access = json_member(body, "access_token");
        let description = json_member(body, "error_description");
        token_from(access, description)
    }

    fn listing(&self, path: &str) -> (request: Request)
        ensures
            request@ == (RequestView {
                method: Method::Get,
                url: self.url@ + path@,
                query: None,
                authorization: match self.token {
                    Some(token) => Some(token@),
                    None => None,
                },
            }),
    {
        let mut url = self.url.clone();
        url.append(path);
        Request {
            method: Method::Get,
            url,
            query: None,
            authorization: match &self.token {
                Some(token) => Some(token.clone()),
                None => None,
            },
        }
    }

    /// The request that opens the listing of the directory's users.
    pub fn fetch_users(&self) -> (request: Request)
        ensures
            request@ == (RequestView {
                method: Method::Get,
                url: self.url@ + "/users"@,
                query: None,
                authorization: match self.token {
                    Some(token) => Some(token@),
                    None => None,
                },
            }),
    {
        self.listing("/users")
    }

    /// The request that opens the listing of the managed devices.
    pub fn fetch_devices(&self) -> (request: Request)
        ensures
            request@ == (RequestView {
                method: Method::Get,
                url: self.url@ + "/deviceManagement/managedDevices"@,
                query: None,
                authorization: match self.token {
                    Some(token) => Some(token@),
                    None => None,
                },
            }),
    {
        self.listing("/deviceManagement/managedDevices")
    }
}

} // verus!
