//! Tenancy as the registry lists it: sites with their status, and contacts.

use crate::netbox::api::{collection_url, token_header, ApiClient, CreateTable, Method, Request, RequestView};
use vstd::prelude::*;

verus! {

/// The path of the collection of contacts.
pub const CONTACTS_ENDPOINT: &'static str = "tenancy/contacts";

/// A site as the registry lists it, with its status.
#[derive(Debug, PartialEq, Eq)]
pub struct Site {
    pub id: Option<u32>,
    pub name: String,
    pub slug: String,
    pub status: Status,
}

/// A status as the registry lists it: the value and its label.
#[derive(Debug, PartialEq, Eq)]
pub struct Status {
    pub value: String,
    pub label: String,
}

/// A contact, with the group that it belongs to.
#[derive(Debug, PartialEq, Eq)]
pub struct Contact {
    pub id: Option<u32>,
    pub name: String,
    pub email: Option<String>,
    pub title: Option<String>,
    pub group: Option<String>,
}

impl Contact {
    /// A contact of which only the name is known.
    pub fn new(name: String) -> (contact: Self)
        ensures
            contact == (Contact { id: None, name, email: None, title: None, group: None }),
    {
        Contact { id: None, name, email: None, title: None, group: None }
    }

    /// The contact with the given identifier.
    pub fn with_id(self, id: u32) -> (contact: Self)
        ensures
            contact == (Contact { id: Some(id), ..self }),
    {
        let mut contact = self;
        contact.id = Some(id);
        contact
    }

    /// The contact in the given group.
    pub fn with_group(self, group: String) -> (contact: Self)
        ensures
            contact == (Contact { group: Some(group), ..self }),
    {
        let mut contact = self;
        contact.group = Some(group);
        contact
    }

    /// The contact with the given address.
    pub fn with_email(self, email: String) -> (contact: Self)
        ensures
            contact == (Contact { email: Some(email), ..self }),
    {
        let mut contact = self;
        contact.email = Some(email);
        contact
    }

    /// The contact with the given title.
    pub fn with_title(self, title: String) -> (contact: Self)
        ensures
            contact == (Contact { title: Some(title), ..self }),
    {
        let mut contact = self;
        contact.title = Some(title);
        contact
    }
}

/// A listing of sites.
#[derive(Debug, PartialEq, Eq)]
pub struct SiteList {
    pub count: u32,
    pub results: Vec<Site>,
}

/// A listing of contacts.
#[derive(Debug, PartialEq, Eq)]
pub struct ContactList {
    pub count: u32,
    pub results: Vec<Contact>,
}

impl ApiClient {
    /// The request that creates a contact.
    pub fn create_contact(&self, contact: &Contact) -> (request: Request)
        ensures
            request@ == (RequestView {
                method: Method::Post,
                url: collection_url(self.api_url@, CONTACTS_ENDPOINT@).push('/'),
                query: None,
                authorization: Some(token_header(self.api_key@)),
            }),
    {
        self.post(CONTACTS_ENDPOINT)
    }
}

impl CreateTable for Contact {
    open spec fn table() -> Seq<char> {
        CONTACTS_ENDPOINT@
    }

    fn create(&self, api: &ApiClient) -> (request: Request) {
        api.create_contact(self)
    }
}

} // verus!
