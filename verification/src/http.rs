//! Requests as plain values. Sending one is the caller's part; what is sent
//! is decided here.

use vstd::prelude::*;

verus! {

/// The method of a request.
#[derive(Debug, Clone, Copy, PartialEq, Eq, Structural)]
pub enum Method {
    Get,
    Put,
}

/// A request to send: method, address, header lines and query parameters, the
/// last two in the order in which they are added.
#[derive(Debug, PartialEq, Eq)]
pub struct HttpRequest {
    pub method: Method,
    pub url: String,
    pub headers: Vec<(String, String)>,
    pub query: Vec<(String, String)>,
}

/// What an [`HttpRequest`] holds, its strings as characters.
pub struct HttpRequestView {
    pub method: Method,
    pub url: Seq<char>,
    pub headers: Seq<(Seq<char>, Seq<char>)>,
    pub query: Seq<(Seq<char>, Seq<char>)>,
}

impl View for HttpRequest {
    type V = HttpRequestView;

    open spec fn view(&self) -> HttpRequestView {
        HttpRequestView {
            method: self.method,
            url: self.url@,
            headers: self.headers.deep_view(),
            query: self.query.deep_view(),
        }
    }
}

/// The value of the authorization header for a bearer token.
pub open spec fn bearer_text(token: Seq<char>) -> Seq<char> {
    "Bearer "@ + token
}

/// Builds the value of the authorization header for a bearer token.
pub fn bearer(token: &str) -> (r: String)
    ensures
        r@ == bearer_text(token@),
{
    let mut buf = String::from_str("Bearer ");
    buf.append(token);
    buf
}

/// A name and a value, owned, for a header line or a query parameter.
pub fn pair(name: &str, value: &str) -> (r: (String, String))
    ensures
        r.deep_view() == (name@, value@),
{
    (String::from_str(name), String::from_str(value))
}

/// Whether a response status reports success: any of 200 to 299.
pub open spec fn is_success(status: u16) -> bool {
    200 <= status < 300
}

/// Tells whether a response status reports success.
pub fn status_is_success(status: u16) -> (r: bool)
    ensures
        r == is_success(status),
{
    200 <= status && status < 300
}

} // verus!
