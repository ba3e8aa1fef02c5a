//! The rules of the transport: how a request is described and made ready,
//! what the status of an answer means, and how a listing is walked page by page.
use crate::repository::sha::Sha;
use crate::repository::tree::TreeEntry;
use crate::text::{decimal_text, digits_of, texts};
use vstd::prelude::*;

verus! {

/// A request that never got an answer.
#[derive(Debug, PartialEq, Eq)]
pub enum ClientRequestError {
    /// The server could not be reached.
    Unavailable,
    /// The request could not be built.
    Build,
    /// The request could not be copied for another attempt.
    Clone,
}

/// An answer that is no success, or that could not be read.
#[derive(Debug, PartialEq, Eq)]
pub enum ClientResponseError {
    Unauthorized { code: u16, message: Option<String> },
    Validation { code: u16, message: Option<String> },
    Nothing { code: u16, message: Option<String> },
    Unhandled { code: u16, message: Option<String> },
    /// The body did not have the expected shape.
    Malformed { reason: String },
    /// The body could not be taken as bytes or text.
    Encoding,
}

/// Every failure of the transport.
#[derive(Debug, PartialEq, Eq)]
pub enum ClientError {
    Request(ClientRequestError),
    Response(ClientResponseError),
    ParseEndpoint { endpoint: String },
    Initialize,
}

/// The verbs of the service.
#[derive(Debug, Clone, Copy, PartialEq, Eq, Structural)]
pub enum Method {
    Get,
    Put,
    Post,
    Patch,
    Delete,
}

/// How the content of a blob travels.
#[derive(Debug, Clone, Copy, PartialEq, Eq, Structural)]
pub enum Encoding {
    /// Raw bytes written as base64: `base64` on the wire.
    Base64,
    /// Text as it is: `utf-8` on the wire.
    Utf8,
}

/// What a request carries as its body. Each variant is one object of the wire
/// format; the comments give the keys under which the fields travel.
#[derive(Debug, PartialEq, Eq)]
#[allow(inconsistent_fields)]
pub enum Payload {
    /// No body.
    Empty,
    /// A body that the caller supplies and that travels beside the request.
    Supplied,
    /// `ref`, `sha`.
    Reference { reference: String, sha: Sha },
    /// `sha`, `force`.
    Target { sha: Sha, force: bool },
    /// `base_tree` where there is one, `tree`.
    Tree { base_tree: Option<Sha>, tree: Vec<TreeEntry> },
    /// `parents`, `message`, `tree`.
    Commit { parents: Vec<Sha>, message: String, tree: Sha },
    /// `encoding`, `content`.
    Blob { encoding: Encoding, content: String },
    /// `assignees`.
    Assignees { assignees: Vec<String> },
    /// `body`.
    Comment { body: String },
    /// `verified_allowed`, `github_owned_allowed`, `patterns_allowed`.
    Actions { verified: bool, native: bool, list: Vec<String> },
}

/// The texts of a vector of hashes.
pub open spec fn hashes(shas: Seq<Sha>) -> Seq<Seq<char>> {
    shas.map_values(|s: Sha| s@)
}

/// A body by the texts it holds.
#[allow(inconsistent_fields)]
pub enum PayloadView {
    Empty,
    Supplied,
    Reference { reference: Seq<char>, sha: Seq<char> },
    Target { sha: Seq<char>, force: bool },
    Tree { base_tree: Option<Seq<char>>, tree: Seq<TreeEntry> },
    Commit { parents: Seq<Seq<char>>, message: Seq<char>, tree: Seq<char> },
    Blob { encoding: Encoding, content: Seq<char> },
    Assignees { assignees: Seq<Seq<char>> },
    Comment { body: Seq<char> },
    Actions { verified: bool, native: bool, list: Seq<Seq<char>> },
}

impl View for Payload {
    type V = PayloadView;

    open spec fn view(&self) -> PayloadView {
        match *self {
            Payload::Empty => PayloadView::Empty,
            Payload::Supplied => PayloadView::Supplied,
            Payload::Reference { reference, sha } => PayloadView::Reference {
                reference: reference@,
                sha: sha@,
            },
            Payload::Target { sha, force } => PayloadView::Target { sha: sha@, force },
            Payload::Tree { base_tree, tree } => PayloadView::Tree {
                base_tree: match base_tree {
                    Some(sha) => Some(sha@),
                    None => None,
                },
                tree: tree@,
            },
            Payload::Commit { parents, message, tree } => PayloadView::Commit {
                parents: hashes(parents@),
                message: message@,
                tree: tree@,
            },
            Payload::Blob { encoding, content } => PayloadView::Blob { encoding, content: content@ },
            Payload::Assignees { assignees } => PayloadView::Assignees {
                assignees: texts(assignees@),
            },
            Payload::Comment { body } => PayloadView::Comment { body: body@ },
            Payload::Actions { verified, native, list } => PayloadView::Actions {
                verified,
                native,
                list: texts(list@),
            },
        }
    }
}

/// One request, described and not yet sent: the verb, the path below the
/// service's root, the query and the body.
#[derive(Debug, PartialEq, Eq)]
pub struct Request {
    pub method: Method,
    pub endpoint: String,
    pub query: Vec<(String, String)>,
    pub payload: Payload,
}

/// The pairs of a query by their texts.
pub open spec fn pairs(query: Seq<(String, String)>) -> Seq<(Seq<char>, Seq<char>)> {
    query.map_values(|pair: (String, String)| (pair.0@, pair.1@))
}

/// A request by the texts it holds.
pub struct RequestView {
    pub method: Method,
    pub endpoint: Seq<char>,
    pub query: Seq<(Seq<char>, Seq<char>)>,
    pub payload: PayloadView,
}

impl RequestView {
    /// A request without query and without body.
    pub open spec fn plain(method: Method, endpoint: Seq<char>) -> RequestView {
        RequestView { method, endpoint, query: Seq::empty(), payload: PayloadView::Empty }
    }

    /// A request without query.
    pub open spec fn with_payload(method: Method, endpoint: Seq<char>, payload: PayloadView) -> RequestView {
        RequestView { method, endpoint, query: Seq::empty(), payload }
    }

    /// The request for one page of a listing: a hundred items, and the page's number from one.
    pub open spec fn page(endpoint: Seq<char>, number: nat) -> RequestView {
        RequestView {
            method: Method::Get,
            endpoint,
            query: seq![
                ("per_page"@, digits_of(PER_PAGE as nat, 10)),
                ("page"@, digits_of(number, 10)),
            ],
            payload: PayloadView::Empty,
        }
    }
}

impl View for Request {
    type V = RequestView;

    open spec fn view(&self) -> RequestView {
        RequestView {
            method: self.method,
            endpoint: self.endpoint@,
            query: pairs(self.query@),
            payload: self.payload@,
        }
    }
}

impl Request {
    /// A request without query.
    pub fn new(method: Method, endpoint: String, payload: Payload) -> (request: Request)
        ensures
            request@ == (RequestView {
                method,
                endpoint: endpoint@,
                query: Seq::empty(),
                payload: payload@,
            }),
    {
        let request = Request { method, endpoint, query: Vec::new(), payload };
        assert(pairs(request.query@) == Seq::<(Seq<char>, Seq<char>)>::empty());
        request
    }

    /// The same request with one more pair at the end of its query.
    pub fn with_query(self, key: &str, value: &str) -> (request: Request)
        ensures
            request@ == (RequestView { query: self@.query.push((key@, value@)), ..self@ }),
    {
        let mut request = self;
        let ghost before = request.query@;
        request.query.push((key.to_owned(), value.to_owned()));
        assert(pairs(request.query@) == pairs(before).push((key@, value@)));
        request
    }
}

/// The root of the service, against which every path is read.
pub const BASE: &'static str = "https://api.github.com";

/// The name under which the library introduces itself.
pub const USER_AGENT: &'static str = "general-action";

/// The header that names the version of the service's interface, and its value.
pub const VERSION_HEADER: &'static str = "x-github-api-version";

pub const VERSION: &'static str = "2022-11-28";

/// The header that names the format asked for, and its value.
pub const ACCEPT_HEADER: &'static str = "accept";

pub const ACCEPT: &'static str = "application/vnd.github+json";

/// The headers that every request carries.
pub fn default_headers() -> (headers: Vec<(String, String)>)
    ensures
        pairs(headers@) == seq![(VERSION_HEADER@, VERSION@), (ACCEPT_HEADER@, ACCEPT@)],
{
    let mut headers: Vec<(String, String)> = Vec::new();
    headers.push((VERSION_HEADER.to_owned(), VERSION.to_owned()));
    headers.push((ACCEPT_HEADER.to_owned(), ACCEPT.to_owned()));
    assert(pairs(headers@) == seq![(VERSION_HEADER@, VERSION@), (ACCEPT_HEADER@, ACCEPT@)]);
    headers
}

/// The address that a reference stands for when it is read against a base
/// address, as `Url::join` reads it; nothing where the base is no address
/// or the reference cannot be read against it.
pub uninterp spec fn joined_url(base: Seq<char>, reference: Seq<char>) -> Option<Seq<char>>;

/// `Url::parse` on the base and `Url::join` with the reference, in `reqwest`'s
/// `Url`: the text of the address that comes out, or nothing where either refuses.
#[verifier::external_body]
fn join_url(base: &str, reference: &str) -> (url: Option<String>)
    ensures
        match url {
            Some(address) => joined_url(base@, reference@) == Some(address@),
            None => joined_url(base@, reference@) is None,
        },
{
    let root = reqwest::Url::parse(base).ok()?;
    let address = root.join(reference).ok()?;
    Some(String::from(address))
}

/// The address of a path below the root of the service; a path that cannot
/// be read against the root is refused, with the path.
pub fn build_endpoint(endpoint: &str) -> (url: Result<String, ClientError>)
    ensures
        match joined_url(BASE@, endpoint@) {
            Some(address) => url matches Ok(built) && built@ == address,
            None => url matches Err(ClientError::ParseEndpoint { endpoint: refused }) && refused@
                == endpoint@,
        },
{
    match join_url(BASE, endpoint) {
        Some(address) => Ok(address),
        None => Err(ClientError::ParseEndpoint { endpoint: endpoint.to_owned() }),
    }
}

impl Request {
    /// The address that the request goes to.
    pub fn url(&self) -> (url: Result<String, ClientError>)
        ensures
            match joined_url(BASE@, self.endpoint@) {
                Some(address) => url matches Ok(built) && built@ == address,
                None => url matches Err(ClientError::ParseEndpoint { endpoint: refused })
                    && refused@ == self.endpoint@,
            },
    {
        build_endpoint(self.endpoint.as_str())
    }
}

/// The way to the service: the token that opens it, where there is one. The
/// token is a secret, so a client is never shown.
pub struct Client {
    pub token: Option<String>,
}

/// A request ready to be sent: the verb, the full address, the token that
/// goes with it as a bearer, the headers, the query and the body.
pub struct GitHubRequestBuilder {
    pub method: Method,
    pub url: String,
    pub bearer: Option<String>,
    pub headers: Vec<(String, String)>,
    pub query: Vec<(String, String)>,
    pub payload: Payload,
}

/// The text of a token, where there is one.
pub open spec fn token_text(token: Option<String>) -> Option<Seq<char>> {
    match token {
        Some(text) => Some(text@),
        None => None,
    }
}

impl GitHubRequestBuilder {
    /// Whether this is the request that `client` sends for `request`, to the
    /// address `url`: the verb, the query and the body are the request's, the
    /// token is the client's, and the headers are those of every request.
    pub open spec fn carries(&self, client: Client, request: RequestView, url: Seq<char>) -> bool {
        &&& self.method == request.method
        &&& self.url@ == url
        &&& token_text(self.bearer) == token_text(client.token)
        &&& pairs(self.headers@) == seq![(VERSION_HEADER@, VERSION@), (ACCEPT_HEADER@, ACCEPT@)]
        &&& pairs(self.query@) == request.query
        &&& self.payload@ == request.payload
    }
}

impl Clone for Client {
    fn clone(&self) -> (client: Client)
        ensures
            client == *self,
    {
        Client { token: self.token.clone() }
    }
}

impl Client {
    /// A client without a token.
    pub fn new() -> (client: Client)
        ensures
            client.token is None,
    {
        Client { token: None }
    }

    /// A client with the given token, if there is one.
    pub fn new_with_token(token: Option<&str>) -> (client: Client)
        ensures
            token_text(client.token) == match token {
                Some(text) => Some(text@),
                None => None,
            },
    {
        match token {
            Some(text) => Client { token: Some(text.to_owned()) },
            None => Client { token: None },
        }
    }

    /// Makes a described request ready to be sent: its path is read against
    /// the root of the service, and the client's token and the headers of
    /// every request are put to it. A path that cannot be read against the
    /// root is refused, with the path.
    pub fn prepare(&self, request: Request) -> (ready: Result<GitHubRequestBuilder, ClientError>)
        ensures
            match joined_url(BASE@, request.endpoint@) {
                Some(address) => ready matches Ok(builder) && builder.carries(
                    *self,
                    request@,
                    address,
                ),
                None => ready matches Err(ClientError::ParseEndpoint { endpoint: refused })
                    && refused@ == request.endpoint@,
            },
    {
        match request.url() {
            Err(error) => Err(error),
            Ok(url) => Ok(
                GitHubRequestBuilder {
                    method: request.method,
                    url,
                    bearer: self.token.clone(),
                    headers: default_headers(),
                    query: request.query,
                    payload: request.payload,
                },
            ),
        }
    }

    /// The request with the given verb to the given path, ready to be sent
    /// but for what the caller adds to it.
    fn verb(&self, method: Method, endpoint: &str) -> (ready: Result<
        GitHubRequestBuilder,
        ClientError,
    >)
        ensures
            match joined_url(BASE@, endpoint@) {
                Some(address) => ready matches Ok(builder) && builder.carries(
                    *self,
                    RequestView::plain(method, endpoint@),
                    address,
                ),
                None => ready matches Err(ClientError::ParseEndpoint { endpoint: refused })
                    && refused@ == endpoint@,
            },
    {
        self.prepare(Request::new(method, endpoint.to_owned(), Payload::Empty))
    }

    /// A `GET` to the given path.
    pub fn get(&self, endpoint: &str) -> (ready: Result<GitHubRequestBuilder, ClientError>)
        ensures
            match joined_url(BASE@, endpoint@) {
                Some(address) => ready matches Ok(builder) && builder.carries(
                    *self,
                    RequestView::plain(Method::Get, endpoint@),
                    address,
                ),
                None => ready matches Err(ClientError::ParseEndpoint { endpoint: refused })
                    && refused@ == endpoint@,
            },
    {
        self.verb(Method::Get, endpoint)
    }

    /// A `PUT` to the given path.
    pub fn put(&self, endpoint: &str) -> (ready: Result<GitHubRequestBuilder, ClientError>)
        ensures
            match joined_url(BASE@, endpoint@) {
                Some(address) => ready matches Ok(builder) && builder.carries(
                    *self,
                    RequestView::plain(Method::Put, endpoint@),
                    address,
                ),
                None => ready matches Err(ClientError::ParseEndpoint { endpoint: refused })
                    && refused@ == endpoint@,
            },
    {
        self.verb(Method::Put, endpoint)
    }

    /// A `POST` to the given path.
    pub fn post(&self, endpoint: &str) -> (ready: Result<GitHubRequestBuilder, ClientError>)
        ensures
            match joined_url(BASE@, endpoint@) {
                Some(address) => ready matches Ok(builder) && builder.carries(
                    *self,
                    RequestView::plain(Method::Post, endpoint@),
                    address,
                ),
                None => ready matches Err(ClientError::ParseEndpoint { endpoint: refused })
                    && refused@ == endpoint@,
            },
    {
        self.verb(Method::Post, endpoint)
    }

    /// A `PATCH` to the given path.
    pub fn patch(&self, endpoint: &str) -> (ready: Result<GitHubRequestBuilder, ClientError>)
        ensures
            match joined_url(BASE@, endpoint@) {
                Some(address) => ready matches Ok(builder) && builder.carries(
                    *self,
                    RequestView::plain(Method::Patch, endpoint@),
                    address,
                ),
                None => ready matches Err(ClientError::ParseEndpoint { endpoint: refused })
                    && refused@ == endpoint@,
            },
    {
        self.verb(Method::Patch, endpoint)
    }

    /// A `DELETE` to the given path.
    pub fn delete(&self, endpoint: &str) -> (ready: Result<GitHubRequestBuilder, ClientError>)
        ensures
            match joined_url(BASE@, endpoint@) {
                Some(address) => ready matches Ok(builder) && builder.carries(
                    *self,
                    RequestView::plain(Method::Delete, endpoint@),
                    address,
                ),
                None => ready matches Err(ClientError::ParseEndpoint { endpoint: refused })
                    && refused@ == endpoint@,
            },
    {
        self.verb(Method::Delete, endpoint)
    }
}

/// The status codes that are a success: 200 to 299.
pub open spec fn is_success(code: u16) -> bool {
    200 <= code < 300
}

/// The failure that a status code outside 200 to 299 stands for.
pub open spec fn failure_of(code: u16, message: Option<String>) -> ClientResponseError {
    if code == 401 || code == 403 {
        ClientResponseError::Unauthorized { code, message }
    } else if code == 404 {
        ClientResponseError::Nothing { code, message }
    } else if code == 422 {
        ClientResponseError::Validation { code, message }
    } else {
        ClientResponseError::Unhandled { code, message }
    }
}

/// How the sending of a request ended, before the answer's body is read.
#[derive(Debug, PartialEq, Eq)]
pub enum Delivery {
    /// The request could not be built.
    Unbuilt,
    /// The last attempt could not copy the request.
    Uncloned,
    /// The last attempt got no answer.
    Unanswered,
    /// The server answered with this status and, in a failure's body, this message.
    Answered { code: u16, message: Option<String> },
}

/// What the sending of a request comes to: success on a status from 200 to
/// 299, and otherwise the failure that tells why.
pub open spec fn outcome_of(delivery: Delivery) -> Result<(), ClientError> {
    match delivery {
        Delivery::Unbuilt => Err(ClientError::Request(ClientRequestError::Build)),
        Delivery::Uncloned => Err(ClientError::Request(ClientRequestError::Clone)),
        Delivery::Unanswered => Err(ClientError::Request(ClientRequestError::Unavailable)),
        Delivery::Answered { code, message } => if is_success(code) {
            Ok(())
        } else {
            Err(ClientError::Response(failure_of(code, message)))
        },
    }
}

impl ClientResponseError {
    /// The failure for a status code that is no success.
    pub fn from_status(code: u16, message: Option<String>) -> (error: ClientResponseError)
        ensures
            error == failure_of(code, message),
    {
        if code == 401 || code == 403 {
            ClientResponseError::Unauthorized { code, message }
        } else if code == 404 {
            ClientResponseError::Nothing { code, message }
        } else if code == 422 {
            ClientResponseError::Validation { code, message }
        } else {
            ClientResponseError::Unhandled { code, message }
        }
    }
}

impl ClientError {
    /// Whether the failure is the server's "nothing here".
    pub open spec fn is_nothing(&self) -> bool {
        *self matches ClientError::Response(ClientResponseError::Nothing { .. })
    }

    /// Whether the failure is the server's "nothing here".
    pub fn nothing_found(&self) -> (nothing: bool)
        ensures
            nothing == self.is_nothing(),
    {
        match self {
            ClientError::Response(ClientResponseError::Nothing { .. }) => true,
            _ => false,
        }
    }
}

/// Whether a status code is a success.
pub fn status_is_success(code: u16) -> (success: bool)
    ensures
        success == is_success(code),
{
    200 <= code && code < 300
}

/// Settles how a request ended.
pub fn conclude(delivery: Delivery) -> (outcome: Result<(), ClientError>)
    ensures
        outcome == outcome_of(delivery),
{
    match delivery {
        Delivery::Unbuilt => Err(ClientError::Request(ClientRequestError::Build)),
        Delivery::Uncloned => Err(ClientError::Request(ClientRequestError::Clone)),
        Delivery::Unanswered => Err(ClientError::Request(ClientRequestError::Unavailable)),
        Delivery::Answered { code, message } => if status_is_success(code) {
            Ok(())
        } else {
            Err(ClientError::Response(ClientResponseError::from_status(code, message)))
        },
    }
}

/// The number of items asked for in one page.
pub const PER_PAGE: usize = 100;

/// The walk through a listing, page by page: ask for a page of a hundred, and
/// stop at the first page that holds fewer.
#[derive(Debug, Clone, Copy, PartialEq, Eq, Structural)]
pub struct Paginator {
    /// The number of pages asked for so far.
    pub page: usize,
    /// Whether a short page has been seen.
    pub finished: bool,
}

impl Paginator {
    /// A walk of which no page has been asked for yet.
    pub fn new() -> (pages: Paginator)
        ensures
            pages.page == 0,
            !pages.finished,
    {
        Paginator { page: 0, finished: false }
    }

    /// Whether another page is to be asked for.
    pub fn has_next(&self) -> (more: bool)
        ensures
            more == !self.finished,
    {
        !self.finished
    }

    /// The request for the next page of the listing at `endpoint`.
    pub fn next_request(&self, endpoint: String) -> (request: Request)
        requires
            self.page < usize::MAX,
        ensures
            request@ == RequestView::page(endpoint@, (self.page + 1) as nat),
    {
        let size = decimal_text(PER_PAGE);
        let number = decimal_text(self.page + 1);
        let request = Request::new(Method::Get, endpoint, Payload::Empty).with_query(
            "per_page",
            size.as_str(),
        ).with_query("page", number.as_str());
        assert(request@.query == seq![
            ("per_page"@, digits_of(PER_PAGE as nat, 10)),
            ("page"@, digits_of((self.page + 1) as nat, 10)),
        ]);
        request
    }

    /// Takes the page that came back: its items go to the end of `collected`,
    /// and the walk is finished exactly if the page held fewer than a hundred.
    pub fn accept<T>(&mut self, collected: &mut Vec<T>, page: Vec<T>) -> (more: bool)
        requires
            old(self).page < usize::MAX,
        ensures
            final(collected)@ == old(collected)@ + page@,
            final(self).page == old(self).page + 1,
            final(self).finished == (page@.len() < PER_PAGE),
            more == !final(self).finished,
    {
        let mut page = page;
        let short = page.len() < PER_PAGE;
        collected.append(&mut page);
        self.page = self.page + 1;
        self.finished = short;
        !short
    }

    /// Ends the walk without another page.
    pub fn finish(&mut self)
        ensures
            final(self).finished,
            final(self).page == old(self).page,
    {
        self.finished = true;
    }
}

impl From<ClientRequestError> for ClientError {
    fn from(error: ClientRequestError) -> (wrapped: ClientError) {
        ClientError::Request(error)
    }
}

impl vstd::std_specs::convert::FromSpecImpl<ClientRequestError> for ClientError {
    open spec fn obeys_from_spec() -> bool {
        true
    }

    open spec fn from_spec(error: ClientRequestError) -> ClientError {
        ClientError::Request(error)
    }
}

impl From<ClientResponseError> for ClientError {
    fn from(error: ClientResponseError) -> (wrapped: ClientError) {
        ClientError::Response(error)
    }
}

impl vstd::std_specs::convert::FromSpecImpl<ClientResponseError> for ClientError {
    open spec fn obeys_from_spec() -> bool {
        true
    }

    open spec fn from_spec(error: ClientResponseError) -> ClientError {
        ClientError::Response(error)
    }
}

} // verus!
