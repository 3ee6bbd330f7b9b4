//! How requests to the registry are framed and how its answers are read:
//! addresses, the token, the status of an answer, and the paging of a listing.

use crate::cache::ResolveAction;
use crate::config::NetBoxConfig;
use crate::netbox::models::{
    Contact, Device, DeviceRole, DeviceType, Entity, Manufacturer, NetBoxIp4, NetBoxModel,
    Platform, Site, Tag, VirtualMachine,
};
use vstd::prelude::*;

verus! {

/// The decimal digit of a number below ten.
pub open spec fn digit_of(d: nat) -> char {
    ((d + 48) as u8) as char
}

/// A number in decimal, without sign or leading zeros.
pub open spec fn decimal_of(n: nat) -> Seq<char>
    decreases n,
{
    if n < 10 {
        seq![digit_of(n)]
    } else {
        decimal_of(n / 10).push(digit_of(n % 10))
    }
}

/// An integer in decimal, with a minus sign where it is negative.
pub open spec fn signed_decimal_of(n: int) -> Seq<char> {
    if n < 0 {
        seq!['-'] + decimal_of((-n) as nat)
    } else {
        decimal_of(n as nat)
    }
}

fn push_decimal(out: &mut String, n: u64)
    ensures
        final(out)@ == old(out)@ + decimal_of(n as nat),
    decreases n,
{
    if n >= 10 {
        push_decimal(out, n / 10);
    }
    let d = (n % 10) as u8;
    out.push((d + 48) as char);
}

fn push_signed_decimal(out: &mut String, n: i32)
    ensures
        final(out)@ == old(out)@ + signed_decimal_of(n as int),
{
    if n < 0 {
        out.push('-');
        push_decimal(out, (-(n as i64)) as u64);
    } else {
        push_decimal(out, n as u64);
    }
}

/// What is done to a resource.
#[derive(Clone, Copy, Debug, PartialEq, Eq, Structural)]
pub enum Method {
    Get,
    Post,
    Patch,
}

/// A request to the registry, ready to be sent: where it goes, the filter
/// that a lookup adds, and the credential that goes with it.
#[derive(Debug, PartialEq, Eq)]
pub struct Request {
    pub method: Method,
    pub url: String,
    /// The name and the value of the filter, where the request has one.
    pub query: Option<(String, String)>,
    /// The value of the `Authorization` header, where the request carries
    /// one.
    pub authorization: Option<String>,
}

/// What a request says.
pub struct RequestView {
    pub method: Method,
    pub url: Seq<char>,
    pub query: Option<(Seq<char>, Seq<char>)>,
    pub authorization: Option<Seq<char>>,
}

impl View for Request {
    type V = RequestView;

    open spec fn view(&self) -> RequestView {
        RequestView {
            method: self.method,
            url: self.url@,
            query: match self.query {
                Some((name, value)) => Some((name@, value@)),
                None => None,
            },
            authorization: match self.authorization {
                Some(credential) => Some(credential@),
                None => None,
            },
        }
    }
}

/// The media type of every body that is sent to the registry.
pub const CONTENT_TYPE: &'static str = "application/json";

/// The name of the filter by which a lookup singles out a natural key.
pub const SLUG_FILTER: &'static str = "slug";

/// The textual form of the token credential.
pub open spec fn token_header(api_key: Seq<char>) -> Seq<char> {
    "Token "@ + api_key
}

/// The address of a collection.
pub open spec fn collection_url(api_url: Seq<char>, endpoint: Seq<char>) -> Seq<char> {
    api_url.push('/') + endpoint
}

/// The address of one member of a collection.
pub open spec fn member_url(api_url: Seq<char>, endpoint: Seq<char>, id: int) -> Seq<char> {
    (collection_url(api_url, endpoint).push('/') + signed_decimal_of(id))
}

/// Whether a status code reports success: from 200 up to 299.
pub open spec fn status_is_success(status: u16) -> bool {
    200 <= status < 300
}

/// Whether a status code reports success.
pub fn is_success(status: u16) -> (success: bool)
    ensures
        success == status_is_success(status),
{
    200 <= status && status < 300
}

/// What the registry said to a creation or an update.
#[derive(Debug, PartialEq, Eq)]
pub enum ApiError {
    /// The registry answered with a status that does not report success;
    /// the body of the answer is kept.
    Rejected { status: u16, body: String },
}

impl ApiError {
    /// The error in words.
    pub open spec fn text(self) -> Seq<char> {
        match self {
            ApiError::Rejected { status, body } => ("NetBox returned "@ + decimal_of(
                status as nat,
            )).push(':').push('\n') + body@,
        }
    }

    pub fn message(&self) -> (text: String)
        ensures
            text@ == self.text(),
    {
        match self {
            ApiError::Rejected { status, body } => {
                let mut text = String::from_str("NetBox returned ");
                push_decimal(&mut text, *status as u64);
                text.push(':');
                text.push('\n');
                text.append(body.as_str());
                text
            },
        }
    }
}

/// Reads the answer to a creation or an update: the body where the status
/// reports success, the refusal otherwise.
pub fn read_response(status: u16, body: String) -> (read: Result<String, ApiError>)
    ensures
        read == if status_is_success(status) {
            Ok::<String, ApiError>(body)
        } else {
            Err::<String, ApiError>(ApiError::Rejected { status, body })
        },
{
    if is_success(status) {
        Ok(body)
    } else {
        Err(ApiError::Rejected { status, body })
    }
}

/// What was read of an answer, as text.
pub open spec fn answer_text(read: Result<String, String>) -> Result<Seq<char>, Seq<char>> {
    match read {
        Ok(body) => Ok(body@),
        Err(cause) => Err(cause@),
    }
}

/// Reads what came back for a creation or an update: the body where the
/// request went through and the status reports success; otherwise the cause,
/// which is the transport's where the request did not go through and the
/// refusal in words where the status reports none.
pub fn read_answer(answer: Result<(u16, String), String>) -> (read: Result<String, String>)
    ensures
        answer_text(read) == match answer {
            Err(cause) => Err::<Seq<char>, Seq<char>>(cause@),
            Ok((status, body)) => if status_is_success(status) {
                Ok::<Seq<char>, Seq<char>>(body@)
            } else {
                Err::<Seq<char>, Seq<char>>((ApiError::Rejected { status, body }).text())
            },
        },
{
    match answer {
        Err(cause) => Err(cause),
        Ok((status, body)) => match read_response(status, body) {
            Ok(body) => Ok(body),
            Err(refusal) => Err(refusal.message()),
        },
    }
}

/// The slug under which the registry files an entity.
pub open spec fn entity_slug(entity: Entity) -> Seq<char> {
    match entity {
        Entity::Manufacturer(e) => e.slug(),
        Entity::DeviceType(e) => e.slug(),
        Entity::DeviceRole(e) => e.slug(),
        Entity::Site(e) => e.slug(),
        Entity::Platform(e) => e.slug(),
        Entity::Tag(e) => e.slug(),
        Entity::Contact(e) => e.slug(),
        Entity::VirtualMachine(e) => e.slug(),
        Entity::Device(e) => e.slug(),
        Entity::Ip4(e) => e.slug(),
    }
}

/// The path of the collection that holds the entities of a kind.
pub open spec fn entity_endpoint(entity: Entity) -> Seq<char> {
    match entity {
        Entity::Manufacturer(_) => Manufacturer::endpoint(),
        Entity::DeviceType(_) => DeviceType::endpoint(),
        Entity::DeviceRole(_) => DeviceRole::endpoint(),
        Entity::Site(_) => Site::endpoint(),
        Entity::Platform(_) => Platform::endpoint(),
        Entity::Tag(_) => Tag::endpoint(),
        Entity::Contact(_) => Contact::endpoint(),
        Entity::VirtualMachine(_) => VirtualMachine::endpoint(),
        Entity::Device(_) => Device::endpoint(),
        Entity::Ip4(_) => NetBoxIp4::endpoint(),
    }
}

/// The registry as requests see it: its address, the token, and the number of
/// requests that may be outstanding at once.
#[derive(Debug, PartialEq, Eq)]
pub struct ApiClient {
    pub api_url: String,
    pub api_key: String,
    pub api_limit: usize,
}

impl ApiClient {
    /// The registry at the configured address.
    pub fn new(config: &NetBoxConfig) -> (client: Self)
        ensures
            client.api_url == config.api_url,
            client.api_key == config.api_key,
            client.api_limit == config.api_limit,
    {
        ApiClient {
            api_url: config.api_url.clone(),
            api_key: config.api_key.clone(),
            api_limit: config.api_limit,
        }
    }

    fn authorization(&self) -> (header: String)
        ensures
            header@ == token_header(self.api_key@),
    {
        let mut header = String::from_str("Token ");
        header.append(self.api_key.as_str());
        header
    }

    fn collection(&self, endpoint: &str) -> (url: String)
        ensures
            url@ == collection_url(self.api_url@, endpoint@),
    {
        let mut url = self.api_url.clone();
        url.push('/');
        url.append(endpoint);
        url
    }

    /// The request that opens a listing of a collection, or that reads one
    /// member of it where an identifier is given.
    pub fn get(&self, endpoint: &str, id: Option<i32>) -> (request: Request)
        ensures
            request@ == (RequestView {
                method: Method::Get,
                url: match id {
                    Some(id) => member_url(self.api_url@, endpoint@, id as int),
                    None => collection_url(self.api_url@, endpoint@),
                },
                query: None,
                authorization: Some(token_header(self.api_key@)),
            }),
    {
        let mut url = self.collection(endpoint);
        match id {
            Some(id) => {
                url.push('/');
                push_signed_decimal(&mut url, id);
            },
            None => {},
        }
        Request { method: Method::Get, url, query: None, authorization: Some(self.authorization()) }
    }

    /// The request that follows a listing to its next page.
    pub fn follow(&self, link: String) -> (request: Request)
        ensures
            request@ == (RequestView {
                method: Method::Get,
                url: link@,
                query: None,
                authorization: Some(token_header(self.api_key@)),
            }),
    {
        Request { method: Method::Get, url: link, query: None, authorization: Some(self.authorization()) }
    }

    /// The request that lists the members of a collection whose slug is the
    /// given one: the listing of the collection, with the slug as its filter.
    pub fn lookup(&self, endpoint: &str, slug: String) -> (request: Request)
        ensures
            request@ == (RequestView {
                method: Method::Get,
                url: collection_url(self.api_url@, endpoint@),
                query: Some((SLUG_FILTER@, slug@)),
                authorization: Some(token_header(self.api_key@)),
            }),
    {
        Request {
            method: Method::Get,
            url: self.collection(endpoint),
            query: Some((String::from_str(SLUG_FILTER), slug)),
            authorization: Some(self.authorization()),
        }
    }

    /// The request that creates a member of a collection.
    pub fn post(&self, endpoint: &str) -> (request: Request)
        ensures
            request@ == (RequestView {
                method: Method::Post,
                url: collection_url(self.api_url@, endpoint@).push('/'),
                query: None,
                authorization: Some(token_header(self.api_key@)),
            }),
    {
        let mut url = self.collection(endpoint);
        url.push('/');
        Request { method: Method::Post, url, query: None, authorization: Some(self.authorization()) }
    }

    /// The request that updates the member of a collection that has the given
    /// identifier.
    pub fn patch(&self, endpoint: &str, id: u32) -> (request: Request)
        ensures
            request@ == (RequestView {
                method: Method::Patch,
                url: member_url(self.api_url@, endpoint@, id as int).push('/'),
                query: None,
                authorization: Some(token_header(self.api_key@)),
            }),
    {
        let mut url = self.collection(endpoint);
        url.push('/');
        push_decimal(&mut url, id as u64);
        url.push('/');
        Request { method: Method::Patch, url, query: None, authorization: Some(self.authorization()) }
    }

    /// The request that a resolution asks for, for an entity of any kind.
    pub fn resolve_entity(&self, entity: &Entity, action: ResolveAction) -> (request: Request)
        ensures
            request@ == (RequestView {
                method: match action {
                    ResolveAction::Create => Method::Post,
                    ResolveAction::Lookup => Method::Get,
                },
                url: match action {
                    ResolveAction::Create => collection_url(
                        self.api_url@,
                        entity_endpoint(*entity),
                    ).push('/'),
                    ResolveAction::Lookup => collection_url(self.api_url@, entity_endpoint(*entity)),
                },
                query: match action {
                    ResolveAction::Create => None,
                    ResolveAction::Lookup => Some((SLUG_FILTER@, entity_slug(*entity))),
                },
                authorization: Some(token_header(self.api_key@)),
            }),
    {
        match entity {
            Entity::Manufacturer(e) => self.resolve(e, action),
            Entity::DeviceType(e) => self.resolve(e, action),
            Entity::DeviceRole(e) => self.resolve(e, action),
            Entity::Site(e) => self.resolve(e, action),
            Entity::Platform(e) => self.resolve(e, action),
            Entity::Tag(e) => self.resolve(e, action),
            Entity::Contact(e) => self.resolve(e, action),
            Entity::VirtualMachine(e) => self.resolve(e, action),
            Entity::Device(e) => self.resolve(e, action),
            Entity::Ip4(e) => self.resolve(e, action),
        }
    }

    /// The request that a resolution asks for: the creation of the draft at
    /// its endpoint, or the lookup of its slug there.
    pub fn resolve<T: NetBoxModel>(&self, item: &T, action: ResolveAction) -> (request: Request)
        ensures
            request@ == (RequestView {
                method: match action {
                    ResolveAction::Create => Method::Post,
                    ResolveAction::Lookup => Method::Get,
                },
                url: match action {
                    ResolveAction::Create => collection_url(self.api_url@, T::endpoint()).push('/'),
                    ResolveAction::Lookup => collection_url(self.api_url@, T::endpoint()),
                },
                query: match action {
                    ResolveAction::Create => None,
                    ResolveAction::Lookup => Some((SLUG_FILTER@, item.slug())),
                },
                authorization: Some(token_header(self.api_key@)),
            }),
    {
        match action {
            ResolveAction::Create => self.post(T::get_endpoint()),
            ResolveAction::Lookup => self.lookup(T::get_endpoint(), item.get_slug()),
        }
    }
}

/// What can be created in the registry by a request to a collection of its
/// own.
pub trait CreateTable {
    /// The path of the collection.
    spec fn table() -> Seq<char>;

    /// The request that creates the value in its collection.
    fn create(&self, api: &ApiClient) -> (request: Request)
        ensures
            request@ == (RequestView {
                method: Method::Post,
                url: collection_url(api.api_url@, Self::table()).push('/'),
                query: None,
                authorization: Some(token_header(api.api_key@)),
            }),
    ;
}

impl<T: NetBoxModel> CreateTable for T {
    open spec fn table() -> Seq<char> {
        T::endpoint()
    }

    fn create(&self, api: &ApiClient) -> (request: Request) {
        api.post(T::get_endpoint())
    }
}

/// One page of a listing: its part of the results, and the address of the
/// page that follows, if one does.
#[derive(Debug, PartialEq, Eq)]
pub struct NetBoxResponse<T> {
    pub count: i32,
    pub next: Option<String>,
    pub results: Vec<T>,
}

/// What came back for a page of a listing.
#[derive(Debug, PartialEq, Eq)]
pub enum PageReply<T> {
    Page(NetBoxResponse<T>),
    /// The registry answered with a status that does not report success.
    Refused(u16),
    /// The request could not be made or its answer could not be read.
    Failed(String),
}

/// Reads the answer for a page of a registry listing: the page where the
/// status reports success, a refusal otherwise.
pub fn page_reply<T>(status: u16, page: NetBoxResponse<T>) -> (reply: PageReply<T>)
    ensures
        reply == if status_is_success(status) {
            PageReply::Page(page)
        } else {
            PageReply::Refused(status)
        },
{
    if is_success(status) {
        PageReply::Page(page)
    } else {
        PageReply::Refused(status)
    }
}

/// A listing under way: what it has gathered, and where it goes next.
#[derive(Debug, PartialEq, Eq)]
pub struct Listing<T> {
    pub results: Vec<T>,
    /// The address of the page that is awaited; none once the listing has
    /// ended.
    pub next: Option<String>,
    /// Why the listing failed, if it did.
    pub failure: Option<String>,
}

/// What a listing under way holds.
pub struct ListingView<T> {
    pub results: Seq<T>,
    pub next: Option<Seq<char>>,
    pub failure: Option<String>,
}

impl<T> View for Listing<T> {
    type V = ListingView<T>;

    open spec fn view(&self) -> ListingView<T> {
        ListingView {
            results: self.results@,
            next: match self.next {
                Some(link) => Some(link@),
                None => None,
            },
            failure: self.failure,
        }
    }
}

/// The address to follow after a page: the one that the page names, unless
/// it names none or an empty one.
pub open spec fn link_after<T>(page: NetBoxResponse<T>) -> Option<Seq<char>> {
    match page.next {
        Some(link) => if link@.len() > 0 {
            Some(link@)
        } else {
            None
        },
        None => None,
    }
}

/// A listing after one more reply.
///
/// A page adds its results to those gathered and names the page that
/// follows. A refusal ends the listing with what has been gathered. A failure
/// ends it and is kept. A listing that has ended takes no more replies.
pub open spec fn listing_fed<T>(listing: ListingView<T>, reply: PageReply<T>) -> ListingView<T> {
    if listing.next is None {
        listing
    } else {
        match reply {
            PageReply::Page(page) => ListingView {
                results: listing.results + page.results@,
                next: link_after(page),
                failure: None,
            },
            PageReply::Refused(_) => ListingView { next: None, ..listing },
            PageReply::Failed(cause) => ListingView { next: None, failure: Some(cause), ..listing },
        }
    }
}

/// A listing after a run of replies, the first of them first.
pub open spec fn listing_fed_all<T>(listing: ListingView<T>, replies: Seq<PageReply<T>>) -> ListingView<
    T,
>
    decreases replies.len(),
{
    if replies.len() == 0 {
        listing
    } else {
        listing_fed(listing_fed_all(listing, replies.drop_last()), replies.last())
    }
}

/// The results of a run of pages, one page after the other.
pub open spec fn pages_results<T>(pages: Seq<NetBoxResponse<T>>) -> Seq<T>
    decreases pages.len(),
{
    if pages.len() == 0 {
        Seq::empty()
    } else {
        pages_results(pages.drop_last()) + pages.last().results@
    }
}

impl<T> Listing<T> {
    /// A listing that awaits its first page at the given address.
    pub fn begin(first: String) -> (listing: Self)
        ensures
            listing@ == (ListingView::<T> {
                results: Seq::empty(),
                next: Some(first@),
                failure: None,
            }),
    {
        Listing { results: Vec::new(), next: Some(first), failure: None }
    }

    /// Takes the reply for the awaited page.
    pub fn feed(&mut self, reply: PageReply<T>)
        ensures
            final(self)@ == listing_fed(old(self)@, reply),
    {
        if self.next.is_none() {
            return ;
        }
        match reply {
            PageReply::Page(page) => {
                let NetBoxResponse { count, next, results } = page;
                let mut results = results;
                self.results.append(&mut results);
                self.next = match next {
                    Some(link) => if link.as_str().unicode_len() > 0 {
                        Some(link)
                    } else {
                        None
                    },
                    None => None,
                };
                self.failure = None;
            },
            PageReply::Refused(_) => {
                self.next = None;
            },
            PageReply::Failed(cause) => {
                self.next = None;
                self.failure = Some(cause);
            },
        }
    }

    /// Whether the listing has ended.
    pub fn is_done(&self) -> (done: bool)
        ensures
            done == (self@.next is None),
    {
        self.next.is_none()
    }

    /// What the listing gathered, or why it failed. To be asked once the
    /// listing has ended.
    pub fn finish(self) -> (gathered: Result<Vec<T>, String>)
        ensures
            gathered == match self.failure {
                Some(cause) => Err::<Vec<T>, String>(cause),
                None => Ok::<Vec<T>, String>(self.results),
            },
    {
        match self.failure {
            Some(cause) => Err(cause),
            None => Ok(self.results),
        }
    }
}

/// A listing follows the links from page to page and gathers the pages'
/// results in their order: after a run of pages of which each but the last
/// names a page to follow, the listing holds the results of all of them, one
/// after the other, and it has ended exactly if the last page names none.
pub proof fn lemma_listing_gathers_pages<T>(first: Seq<char>, pages: Seq<NetBoxResponse<T>>)
    requires
        pages.len() > 0,
        forall|i: int| 0 <= i < pages.len() - 1 ==> link_after(#[trigger] pages[i]) is Some,
    ensures
        ({
            let start = ListingView::<T> {
                results: Seq::empty(),
                next: Some(first),
                failure: None,
            };
            let replies = Seq::new(pages.len(), |i: int| PageReply::Page(pages[i]));
            let end = listing_fed_all(start, replies);
            &&& end.results == pages_results(pages)
            &&& end.next == link_after(pages.last())
            &&& end.failure is None
        }),
    decreases pages.len(),
{
    let start = ListingView::<T> { results: Seq::empty(), next: Some(first), failure: None };
    let replies = Seq::new(pages.len(), |i: int| PageReply::Page(pages[i]));
    if pages.len() == 1 {
        assert(listing_fed_all(start, replies.drop_last()) == start);
        assert(pages_results(pages.drop_last()) =~= Seq::<T>::empty());
    } else {
        let before = pages.drop_last();
        lemma_listing_gathers_pages(first, before);
        let earlier = Seq::new(before.len(), |i: int| PageReply::Page(before[i]));
        assert(replies.drop_last() =~= earlier);
    }
}

/// Once a listing has ended, nothing that comes back changes it.
pub proof fn lemma_listing_stops<T>(listing: ListingView<T>, reply: PageReply<T>)
    requires
        listing.next is None,
    ensures
        listing_fed(listing, reply) == listing,
{
}

} // verus!
