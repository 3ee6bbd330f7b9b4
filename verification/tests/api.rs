use netbox_ingester::cache::ResolveAction;
use netbox_ingester::config::{AzureConfig, FortiGateConfig, NagiosxiConfig, NetBoxConfig};
use netbox_ingester::fetch::azure::{self, AzureClient, TokenError};
use netbox_ingester::fetch::fortigate::{FortiGateClient, FortiGateResponse};
use netbox_ingester::fetch::nagiosxi::NagiosxiClient;
use netbox_ingester::netbox::api::{
    is_success, page_reply, read_answer, read_response, ApiClient, ApiError, CreateTable, Listing,
    Method, NetBoxResponse, PageReply, Request,
};
use netbox_ingester::netbox::dcim::DcimApi;
use netbox_ingester::netbox::models::{Entity, Manufacturer, Site, Tag};
use netbox_ingester::netbox::tenancy::Contact;

fn client() -> ApiClient {
    ApiClient::new(&NetBoxConfig {
        api_key: "SECRET".to_string(),
        api_url: "https://netbox.example/api".to_string(),
        api_limit: 4,
    })
}

fn page(results: Vec<u32>, next: Option<&str>) -> PageReply<u32> {
    PageReply::Page(NetBoxResponse { count: 6, next: next.map(|n| n.to_string()), results })
}

#[test]
fn client_keeps_the_configuration() {
    let client = client();
    assert_eq!(client.api_key, "SECRET");
    assert_eq!(client.api_url, "https://netbox.example/api");
    assert_eq!(client.api_limit, 4);
}

#[test]
fn listing_follows_three_pages() {
    let client = client();
    let first = client.get("dcim/sites", None);
    assert_eq!(first.url, "https://netbox.example/api/dcim/sites");
    let mut listing: Listing<u32> = Listing::begin(first.url);
    let mut fetched = Vec::new();
    let pages = vec![
        page(vec![1, 2], Some("https://netbox.example/api/dcim/sites?offset=2")),
        page(vec![3, 4], Some("https://netbox.example/api/dcim/sites?offset=4")),
        page(vec![5, 6], None),
    ];
    for reply in pages {
        assert!(!listing.is_done());
        fetched.push(listing.next.clone().unwrap());
        listing.feed(reply);
    }
    assert!(listing.is_done());
    assert_eq!(
        fetched,
        vec![
            "https://netbox.example/api/dcim/sites".to_string(),
            "https://netbox.example/api/dcim/sites?offset=2".to_string(),
            "https://netbox.example/api/dcim/sites?offset=4".to_string(),
        ]
    );
    // Nothing is followed once the last page has named no next one.
    listing.feed(page(vec![7], Some("https://netbox.example/api/dcim/sites?offset=6")));
    assert!(listing.is_done());
    assert_eq!(listing.finish(), Ok(vec![1, 2, 3, 4, 5, 6]));
}

#[test]
fn listing_treats_an_empty_link_as_the_end() {
    let mut listing: Listing<u32> = Listing::begin("u".to_string());
    listing.feed(page(vec![1], Some("")));
    assert!(listing.is_done());
    assert_eq!(listing.finish(), Ok(vec![1]));
}

#[test]
fn refused_page_ends_the_listing_with_what_it_has() {
    let mut listing: Listing<u32> = Listing::begin("u".to_string());
    listing.feed(page(vec![1, 2], Some("v")));
    listing.feed(PageReply::Refused(503));
    assert!(listing.is_done());
    assert_eq!(listing.finish(), Ok(vec![1, 2]));
}

#[test]
fn failed_page_fails_the_listing() {
    let mut listing: Listing<u32> = Listing::begin("u".to_string());
    listing.feed(page(vec![1, 2], Some("v")));
    listing.feed(PageReply::Failed("connection reset".to_string()));
    assert!(listing.is_done());
    assert_eq!(listing.finish(), Err("connection reset".to_string()));
}

#[test]
fn page_reply_goes_by_the_status() {
    let ok = page_reply(200, NetBoxResponse { count: 1, next: None, results: vec![1u32] });
    assert_eq!(ok, PageReply::Page(NetBoxResponse { count: 1, next: None, results: vec![1u32] }));
    let refused = page_reply(404, NetBoxResponse { count: 1, next: None, results: vec![1u32] });
    assert_eq!(refused, PageReply::Refused(404));
    assert_eq!(
        azure::page_reply(200, vec![1u32], Some("n".to_string())),
        PageReply::Page(NetBoxResponse { count: 0, next: Some("n".to_string()), results: vec![1u32] })
    );
    assert_eq!(azure::page_reply(201, vec![1u32], None), PageReply::Refused(201));
}

#[test]
fn success_is_two_hundred_to_two_ninety_nine() {
    assert!(!is_success(199));
    assert!(is_success(200));
    assert!(is_success(201));
    assert!(is_success(299));
    assert!(!is_success(300));
    assert!(!is_success(404));
    assert!(!is_success(0));
    assert!(!is_success(u16::MAX));
}

#[test]
fn response_is_read_by_its_status() {
    assert_eq!(read_response(201, "{}".to_string()), Ok("{}".to_string()));
    let refused = read_response(400, "slug: already exists".to_string());
    assert_eq!(
        refused,
        Err(ApiError::Rejected { status: 400, body: "slug: already exists".to_string() })
    );
    assert_eq!(refused.unwrap_err().message(), "NetBox returned 400:\nslug: already exists");
    assert_eq!(
        ApiError::Rejected { status: 0, body: String::new() }.message(),
        "NetBox returned 0:\n"
    );
    assert_eq!(
        ApiError::Rejected { status: 65535, body: "x".to_string() }.message(),
        "NetBox returned 65535:\nx"
    );
}

#[test]
fn answer_is_read_by_transport_and_status() {
    assert_eq!(read_answer(Ok((200, "{}".to_string()))), Ok("{}".to_string()));
    assert_eq!(
        read_answer(Ok((409, "exists".to_string()))),
        Err("NetBox returned 409:\nexists".to_string())
    );
    assert_eq!(read_answer(Err("timed out".to_string())), Err("timed out".to_string()));
}

#[test]
fn requests_are_framed() {
    let client = client();
    let token = Some("Token SECRET".to_string());
    assert_eq!(
        client.get("dcim/devices", Some(42)),
        Request {
            method: Method::Get,
            url: "https://netbox.example/api/dcim/devices/42".to_string(),
            query: None,
            authorization: token.clone(),
        }
    );
    assert_eq!(client.get("dcim/devices", Some(-7)).url, "https://netbox.example/api/dcim/devices/-7");
    assert_eq!(
        client.get("dcim/devices", Some(i32::MIN)).url,
        "https://netbox.example/api/dcim/devices/-2147483648"
    );
    assert_eq!(client.get("dcim/devices", Some(0)).url, "https://netbox.example/api/dcim/devices/0");
    assert_eq!(
        client.post("dcim/devices"),
        Request {
            method: Method::Post,
            url: "https://netbox.example/api/dcim/devices/".to_string(),
            query: None,
            authorization: token.clone(),
        }
    );
    assert_eq!(
        client.patch("dcim/devices", 1207),
        Request {
            method: Method::Patch,
            url: "https://netbox.example/api/dcim/devices/1207/".to_string(),
            query: None,
            authorization: token.clone(),
        }
    );
    assert_eq!(
        client.patch("dcim/devices", u32::MAX).url,
        "https://netbox.example/api/dcim/devices/4294967295/"
    );
    assert_eq!(
        client.lookup("extras/tags", "aad".to_string()),
        Request {
            method: Method::Get,
            url: "https://netbox.example/api/extras/tags".to_string(),
            query: Some(("slug".to_string(), "aad".to_string())),
            authorization: token.clone(),
        }
    );
    assert_eq!(
        client.follow("https://netbox.example/api/x?offset=50".to_string()),
        Request {
            method: Method::Get,
            url: "https://netbox.example/api/x?offset=50".to_string(),
            query: None,
            authorization: token,
        }
    );
}

#[test]
fn resolution_requests_are_framed() {
    let client = client();
    let maker = Manufacturer::new("Dell Inc.".to_string());
    let create = client.resolve(&maker, ResolveAction::Create);
    assert_eq!(create.method, Method::Post);
    assert_eq!(create.url, "https://netbox.example/api/dcim/manufacturers/");
    assert_eq!(create.query, None);
    let lookup = client.resolve(&maker, ResolveAction::Lookup);
    assert_eq!(lookup.method, Method::Get);
    assert_eq!(lookup.url, "https://netbox.example/api/dcim/manufacturers");
    assert_eq!(lookup.query, Some(("slug".to_string(), "dell-inc".to_string())));
    let site = Site::new("Head Office".to_string());
    assert_eq!(
        client.resolve(&site, ResolveAction::Lookup).query,
        Some(("slug".to_string(), "head-office".to_string()))
    );
    let tag = Tag::new("AAD".to_string());
    assert_eq!(
        client.resolve_entity(&Entity::Tag(tag.clone()), ResolveAction::Lookup),
        client.resolve(&tag, ResolveAction::Lookup)
    );
    assert_eq!(
        client.resolve_entity(&Entity::Site(site.clone()), ResolveAction::Create),
        client.post("dcim/sites")
    );
}

#[test]
fn create_table_posts_to_the_collection() {
    let client = client();
    let tag = Tag::new("AAD".to_string());
    assert_eq!(tag.create(&client), client.post("extras/tags"));
    let contact = Contact::new("Ada".to_string());
    assert_eq!(contact.create(&client), client.post("tenancy/contacts"));
    assert_eq!(client.create_contact(&contact), client.post("tenancy/contacts"));
    let dcim = DcimApi::new(ApiClient::new(&NetBoxConfig {
        api_key: "SECRET".to_string(),
        api_url: "https://netbox.example/api".to_string(),
        api_limit: 4,
    }));
    assert_eq!(dcim.get_devices(), client.get("dcim/devices", None));
}

#[test]
fn contact_builder() {
    let contact = Contact::new("Ada".to_string())
        .with_id(3)
        .with_group("staff".to_string())
        .with_email("ada@example.org".to_string())
        .with_title("Countess".to_string());
    assert_eq!(
        contact,
        Contact {
            id: Some(3),
            name: "Ada".to_string(),
            email: Some("ada@example.org".to_string()),
            title: Some("Countess".to_string()),
            group: Some("staff".to_string()),
        }
    );
    assert_eq!(
        Contact::new("Bob".to_string()),
        Contact { id: None, name: "Bob".to_string(), email: None, title: None, group: None }
    );
}

fn azure_config() -> AzureConfig {
    AzureConfig {
        client_id: "cid".to_string(),
        client_secret: "SECRET".to_string(),
        tenant_id: "tenant-1".to_string(),
        url: "https://graph.example/v1.0".to_string(),
    }
}

#[test]
fn token_is_read_from_the_answer() {
    assert_eq!(
        AzureClient::fetch_token("{\"token_type\":\"Bearer\",\"access_token\":\"abc.def\"}"),
        Ok("abc.def".to_string())
    );
}

#[test]
fn token_refusal_keeps_the_description() {
    let refused =
        AzureClient::fetch_token("{\"error\":\"invalid_client\",\"error_description\":\"bad secret\"}");
    assert_eq!(refused, Err(TokenError::Refused(Some("bad secret".to_string()))));
    assert_eq!(refused.unwrap_err().message(), "Failed to retrieve token: bad secret");
    let bare = AzureClient::fetch_token("{\"error\":\"invalid_client\"}");
    assert_eq!(bare, Err(TokenError::Refused(None)));
    assert_eq!(
        bare.unwrap_err().message(),
        "Failed to retrieve token: No error description provided"
    );
    assert_eq!(AzureClient::fetch_token("{\"access_token\":17}"), Err(TokenError::Refused(None)));
    assert_eq!(AzureClient::fetch_token("[1,2]"), Err(TokenError::Refused(None)));
}

#[test]
fn token_answer_that_is_not_json() {
    match AzureClient::fetch_token("<html>") {
        Err(TokenError::NotJson(complaint)) => {
            assert!(!complaint.is_empty());
            assert_ne!(complaint, "<html>");
            assert!(TokenError::NotJson(complaint.clone())
                .message()
                .starts_with("Failed to parse response as JSON: "));
        }
        other => panic!("{:?}", other),
    }
}

#[test]
fn token_from_what_was_read() {
    assert_eq!(azure::token_from(Ok(Some("t".to_string())), Ok(None)), Ok("t".to_string()));
    assert_eq!(
        azure::token_from(Ok(Some("t".to_string())), Err("x".to_string())),
        Ok("t".to_string())
    );
    assert_eq!(
        azure::token_from(Ok(None), Ok(Some("why".to_string()))),
        Err(TokenError::Refused(Some("why".to_string())))
    );
    assert_eq!(azure::token_from(Ok(None), Err("x".to_string())), Err(TokenError::Refused(None)));
    assert_eq!(
        azure::token_from(Err("line 1".to_string()), Ok(None)),
        Err(TokenError::NotJson("line 1".to_string()))
    );
}

#[test]
fn directory_requests_are_framed() {
    let config = azure_config();
    let ask = AzureClient::token_request(&config);
    assert_eq!(ask.method, Method::Post);
    assert_eq!(ask.url, "https://login.microsoftonline.com/tenant-1/oauth2/v2.0/token");
    assert_eq!(ask.authorization, None);
    assert_eq!(
        AzureClient::token_form(&config),
        vec![
            ("client_id", "cid".to_string()),
            ("client_secret", "SECRET".to_string()),
            ("scope", "https://graph.microsoft.com/.default".to_string()),
            ("grant_type", "client_credentials".to_string()),
        ]
    );
    let client = AzureClient::new(&config, "tok".to_string());
    assert_eq!(client.token, Some("tok".to_string()));
    let users = client.fetch_users();
    assert_eq!(users.url, "https://graph.example/v1.0/users");
    assert_eq!(users.authorization, Some("tok".to_string()));
    assert_eq!(
        client.fetch_devices().url,
        "https://graph.example/v1.0/deviceManagement/managedDevices"
    );
}

#[test]
fn fabric_requests_and_answers() {
    let client = FortiGateClient::new(&FortiGateConfig {
        url: "https://fw.example/api/v2".to_string(),
        token: "SECRET".to_string(),
    });
    let request = client.fetch_devices();
    assert_eq!(request.method, Method::Get);
    assert_eq!(request.url, "https://fw.example/api/v2/monitor/user/device/query");
    assert_eq!(request.authorization, Some("Bearer SECRET".to_string()));
    assert_eq!(
        FortiGateClient::read_devices(200, FortiGateResponse { results: Vec::new() }),
        Vec::new()
    );
    assert_eq!(
        FortiGateClient::read_devices(403, FortiGateResponse { results: Vec::new() }).len(),
        0
    );
}

#[test]
fn monitoring_requests_are_framed() {
    let client = NagiosxiClient::new(&NagiosxiConfig {
        api_key: "SECRET".to_string(),
        url: "https://nagios.example/api/v1".to_string(),
    });
    assert_eq!(
        client.get_hosts().url,
        "https://nagios.example/api/v1/objects/hoststatus?apikey=SECRET"
    );
    assert_eq!(
        client.get_services().url,
        "https://nagios.example/api/v1/objects/servicestatus?apikey=SECRET"
    );
    assert_eq!(client.get_hosts().authorization, None);
}
