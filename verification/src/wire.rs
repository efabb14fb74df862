//! The requests the client sends and the replies it reads, as plain values.

use crate::text::{decimal, decimal_digits};
use vstd::prelude::*;

verus! {

/// The base URL of the application.
pub const MODERN_URL: &'static str = "https://connect.garmin.com/modern";

/// The sign-in endpoint of the single sign-on service.
pub const SIGNIN_URL: &'static str = "https://sso.garmin.com/sso/signin";

/// The origin that the sign-in request names.
pub const SSO_ORIGIN: &'static str = "https://sso.garmin.com";

/// The activity search endpoint.
pub const SEARCH_URL: &'static str =
    "https://connect.garmin.com/modern/proxy/activitylist-service/activities/search/activities";

/// What precedes the identifier in the URL of an activity download.
pub const DOWNLOAD_URL: &'static str =
    "https://connect.garmin.com/modern/proxy/download-service/files/activity/";

/// The extension of the file an activity is saved to.
pub const FILE_EXTENSION: &'static str = ".fit";

/// The HTTP method of a request.
#[derive(Debug, Clone, Copy, PartialEq, Eq, Structural)]
pub enum Method {
    Get,
    Post,
}

/// One request for the caller to send.
#[derive(Debug, Clone, PartialEq, Eq)]
pub struct Request {
    /// Whether the request opens a new session: the caller then drops every
    /// cookie of the session before, so that nothing of it is carried over.
    pub new_session: bool,
    pub method: Method,
    pub url: String,
    /// Parameters for the query string, in order.
    pub query: Vec<(String, String)>,
    /// Fields of the form-encoded body, in order; empty for a request without body.
    pub form: Vec<(String, String)>,
    /// Headers to add, in order.
    pub headers: Vec<(String, String)>,
}

/// A [`Request`] over sequences of characters.
pub struct RequestView {
    pub new_session: bool,
    pub method: Method,
    pub url: Seq<char>,
    pub query: Seq<(Seq<char>, Seq<char>)>,
    pub form: Seq<(Seq<char>, Seq<char>)>,
    pub headers: Seq<(Seq<char>, Seq<char>)>,
}

/// Name and value pairs over sequences of characters.
pub open spec fn pairs_view(pairs: Seq<(String, String)>) -> Seq<(Seq<char>, Seq<char>)> {
    Seq::new(pairs.len(), |i: int| (pairs[i].0@, pairs[i].1@))
}

impl View for Request {
    type V = RequestView;

    open spec fn view(&self) -> RequestView {
        RequestView {
            new_session: self.new_session,
            method: self.method,
            url: self.url@,
            query: pairs_view(self.query@),
            form: pairs_view(self.form@),
            headers: pairs_view(self.headers@),
        }
    }
}

/// What the server answered.
#[derive(Debug, Clone, PartialEq, Eq)]
pub struct Response {
    pub status: u16,
    /// The `Location` header, where the answer has one.
    pub location: Option<String>,
    pub body: Vec<u8>,
}

/// A [`Response`] over sequences.
pub struct ResponseView {
    pub status: u16,
    pub location: Option<Seq<char>>,
    pub body: Seq<u8>,
}

impl View for Response {
    type V = ResponseView;

    open spec fn view(&self) -> ResponseView {
        ResponseView {
            status: self.status,
            location: match self.location {
                Some(url) => Some(url@),
                None => None,
            },
            body: self.body@,
        }
    }
}

/// What came of sending a request.
#[derive(Debug, Clone, PartialEq, Eq)]
pub enum Reply {
    /// The server answered.
    Answer(Response),
    /// No answer arrived; the message says why.
    Failure(String),
}

/// A [`Reply`] over sequences.
pub enum ReplyView {
    Answer(ResponseView),
    Failure(Seq<char>),
}

impl View for Reply {
    type V = ReplyView;

    open spec fn view(&self) -> ReplyView {
        match *self {
            Reply::Answer(response) => ReplyView::Answer(response@),
            Reply::Failure(message) => ReplyView::Failure(message@),
        }
    }
}

/// Whether a status lies in the success range.
pub open spec fn is_success(status: u16) -> bool {
    200 <= status < 300
}

/// Whether a status lies in the redirection range.
pub open spec fn is_redirect(status: u16) -> bool {
    300 <= status < 400
}

/// Tells whether a status lies in the success range.
pub fn success(status: u16) -> (b: bool)
    ensures
        b == is_success(status),
{
    200 <= status && status < 300
}

/// Tells whether a status lies in the redirection range.
pub fn redirect(status: u16) -> (b: bool)
    ensures
        b == is_redirect(status),
{
    300 <= status && status < 400
}

/// A GET request for `url` with nothing added.
pub open spec fn plain_get(url: Seq<char>) -> RequestView {
    RequestView {
        new_session: false,
        method: Method::Get,
        url,
        query: seq![],
        form: seq![],
        headers: seq![],
    }
}

/// The request that posts the credentials to the sign-in endpoint, and
/// thereby opens a new session.
pub open spec fn sign_in(username: Seq<char>, password: Seq<char>) -> RequestView {
    RequestView {
        new_session: true,
        method: Method::Post,
        url: SIGNIN_URL@,
        query: seq![("service"@, MODERN_URL@)],
        form: seq![("username"@, username), ("password"@, password), ("embed"@, "false"@)],
        headers: seq![("Origin"@, SSO_ORIGIN@)],
    }
}

/// The request that lists `limit` activities from index `start` on.
pub open spec fn search(start: u64, limit: u64) -> RequestView {
    RequestView {
        new_session: false,
        method: Method::Get,
        url: SEARCH_URL@,
        query: seq![
            ("start"@, decimal_digits(start as nat)),
            ("limit"@, decimal_digits(limit as nat)),
        ],
        form: seq![],
        headers: seq![],
    }
}

/// The request that downloads the activity `id`.
pub open spec fn download(id: u64) -> RequestView {
    plain_get(DOWNLOAD_URL@ + decimal_digits(id as nat))
}

/// The name of the file that the activity `id` is saved to.
pub open spec fn file_name(id: u64) -> Seq<char> {
    decimal_digits(id as nat) + FILE_EXTENSION@
}

/// Builds a GET request for `url` with nothing added.
pub fn get_request(url: String) -> (request: Request)
    ensures
        request@ == plain_get(url@),
{
    let request = Request {
        new_session: false,
        method: Method::Get,
        url,
        query: Vec::new(),
        form: Vec::new(),
        headers: Vec::new(),
    };
    assert(request@.query =~= seq![]);
    assert(request@.form =~= seq![]);
    assert(request@.headers =~= seq![]);
    request
}

/// Builds the request that posts the credentials to the sign-in endpoint.
pub fn sign_in_request(username: &str, password: &str) -> (request: Request)
    ensures
        request@ == sign_in(username@, password@),
{
    let mut query: Vec<(String, String)> = Vec::new();
    query.push(("service".to_owned(), MODERN_URL.to_owned()));
    let mut form: Vec<(String, String)> = Vec::new();
    form.push(("username".to_owned(), username.to_owned()));
    form.push(("password".to_owned(), password.to_owned()));
    form.push(("embed".to_owned(), "false".to_owned()));
    let mut headers: Vec<(String, String)> = Vec::new();
    headers.push(("Origin".to_owned(), SSO_ORIGIN.to_owned()));
    let request = Request {
        new_session: true,
        method: Method::Post,
        url: SIGNIN_URL.to_owned(),
        query,
        form,
        headers,
    };
    assert(request@.query =~= sign_in(username@, password@).query);
    assert(request@.form =~= sign_in(username@, password@).form);
    assert(request@.headers =~= sign_in(username@, password@).headers);
    request
}

/// Builds the request that lists `limit` activities from index `start` on.
pub fn search_request(start: u64, limit: u64) -> (request: Request)
    ensures
        request@ == search(start, limit),
{
    let mut query: Vec<(String, String)> = Vec::new();
    query.push(("start".to_owned(), decimal(start)));
    query.push(("limit".to_owned(), decimal(limit)));
    let request = Request {
        new_session: false,
        method: Method::Get,
        url: SEARCH_URL.to_owned(),
        query,
        form: Vec::new(),
        headers: Vec::new(),
    };
    assert(request@.query =~= search(start, limit).query);
    assert(request@.form =~= seq![]);
    assert(request@.headers =~= seq![]);
    request
}

/// Builds the request that downloads the activity `id`.
pub fn download_request(id: u64) -> (request: Request)
    ensures
        request@ == download(id),
{
    let mut url = DOWNLOAD_URL.to_owned();
    url.append(decimal(id).as_str());
    get_request(url)
}

/// Names the file that the activity `id` is saved to.
pub fn activity_file_name(id: u64) -> (name: String)
    ensures
        name@ == file_name(id),
{
    let mut name = decimal(id);
    name.append(FILE_EXTENSION);
    name
}

} // verus!
