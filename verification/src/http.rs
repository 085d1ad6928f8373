//! Requests to web services and what came back, as plain values.

use vstd::prelude::*;

verus! {

#[derive(Clone, Copy, Debug, PartialEq, Eq, Structural)]
pub enum HttpMethod {
    Get,
    Post,
    Delete,
}

/// What a request carries.
#[derive(Clone, Debug)]
pub enum HttpBody {
    Empty,
    /// A JSON document, as text.
    Json(String),
    /// The fields of a form, each with its value.
    Form(Vec<(String, String)>),
}

/// A request, ready to be sent.
#[derive(Clone, Debug)]
pub struct HttpRequest {
    pub method: HttpMethod,
    pub url: String,
    pub headers: Vec<(String, String)>,
    pub body: HttpBody,
    pub follow_redirects: bool,
    pub timeout_seconds: u64,
}

/// What became of a request.
#[derive(Clone, Debug)]
pub enum HttpReply {
    /// The client could not be built; the text says why.
    NotBuilt(String),
    /// The request could not be sent; the text says why.
    NotSent(String),
    /// The service answered.
    Answered {
        status: u16,
        /// The status as text, such as `404 Not Found`.
        status_text: String,
        body: String,
    },
}

pub enum HttpBodyView {
    Empty,
    Json(Seq<char>),
    Form(Seq<(Seq<char>, Seq<char>)>),
}

pub struct HttpRequestView {
    pub method: HttpMethod,
    pub url: Seq<char>,
    pub headers: Seq<(Seq<char>, Seq<char>)>,
    pub body: HttpBodyView,
    pub follow_redirects: bool,
    pub timeout_seconds: u64,
}

pub enum HttpReplyView {
    NotBuilt(Seq<char>),
    NotSent(Seq<char>),
    Answered { status: u16, status_text: Seq<char>, body: Seq<char> },
}

/// Names with their values, as texts.
pub open spec fn pairs(v: Seq<(String, String)>) -> Seq<(Seq<char>, Seq<char>)> {
    v.map_values(|p: (String, String)| (p.0@, p.1@))
}

impl View for HttpBody {
    type V = HttpBodyView;

    open spec fn view(&self) -> HttpBodyView {
        match self {
            HttpBody::Empty => HttpBodyView::Empty,
            HttpBody::Json(text) => HttpBodyView::Json(text@),
            HttpBody::Form(fields) => HttpBodyView::Form(pairs(fields@)),
        }
    }
}

impl View for HttpRequest {
    type V = HttpRequestView;

    open spec fn view(&self) -> HttpRequestView {
        HttpRequestView {
            method: self.method,
            url: self.url@,
            headers: pairs(self.headers@),
            body: self.body@,
            follow_redirects: self.follow_redirects,
            timeout_seconds: self.timeout_seconds,
        }
    }
}

impl View for HttpReply {
    type V = HttpReplyView;

    open spec fn view(&self) -> HttpReplyView {
        match self {
            HttpReply::NotBuilt(error) => HttpReplyView::NotBuilt(error@),
            HttpReply::NotSent(error) => HttpReplyView::NotSent(error@),
            HttpReply::Answered { status, status_text, body } => HttpReplyView::Answered {
                status: *status,
                status_text: status_text@,
                body: body@,
            },
        }
    }
}

/// The seconds after which a request is given up.
pub const HTTP_TIMEOUT_SECONDS: u64 = 30;

/// Whether a status code reports success.
pub open spec fn success(status: u16) -> bool {
    200 <= status <= 299
}

/// Whether a status code reports success.
pub fn is_success(status: u16) -> (r: bool)
    ensures
        r == success(status),
{
    200 <= status && status <= 299
}

/// A name with its value.
pub fn pair(name: &str, value: &str) -> (r: (String, String))
    ensures
        r.0@ == name@,
        r.1@ == value@,
{
    (name.to_string(), value.to_string())
}

/// The value of an `Authorization` header that carries `token`.
pub open spec fn bearer(token: Seq<char>) -> Seq<char> {
    "Bearer "@ + token
}

/// The value of an `Authorization` header that carries `token`.
pub fn bearer_header(token: &str) -> (r: String)
    ensures
        r@ == bearer(token@),
{
    let mut header = "Bearer ".to_string();
    header.append(token);
    header
}

} // verus!
