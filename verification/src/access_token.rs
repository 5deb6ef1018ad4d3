//! The bearer token of a session: the request that asks for one with the two
//! cookies of a signed-in browser, and what its answer means.

use vstd::prelude::*;
use crate::http::{is_success, pair, status_is_success, HttpRequest, HttpRequestView, Method};
use crate::text::{decimal, push_decimal};

verus! {

/// How to come by the two cookies.
pub const SP_DC_INSTRUCTIONS: &'static str =
    "1. open a new incognito window in a browser at: https://accounts.spotify.com/en/login?continue=https:%2F%2Fopen.spotify.com%2F\n2. open Developer Tools in your browser and select the 'Application' tab\n3. login to Spotify\n4. search/filter for `sp_dc` under Cookies > https://open.spotify.com\n4. repeat step 4 for `sp_key`\n6. close the window without logging out";

/// Where tokens are asked for.
pub const TOKEN_URL: &'static str =
    "https://open.spotify.com/get_access_token?reason=transport&productType=web_player";

/// The browser that the request claims to come from.
pub const USER_AGENT: &'static str =
    "Mozilla/5.0 (Macintosh; Intel Mac OS X 10_13_2) AppleWebKit/537.36 (KHTML, like Gecko) Chrome/63.0.3239.132 Safari/537.36";

/// A bearer token and the time at which it expires, in milliseconds since
/// 1970.
#[derive(Debug, PartialEq, Eq)]
pub struct TokenResponse {
    pub access_token: String,
    pub expiry_ms: i64,
}

/// What a [`TokenResponse`] holds, its token as characters.
pub struct TokenResponseView {
    pub access_token: Seq<char>,
    pub expiry_ms: i64,
}

impl View for TokenResponse {
    type V = TokenResponseView;

    open spec fn view(&self) -> TokenResponseView {
        TokenResponseView { access_token: self.access_token@, expiry_ms: self.expiry_ms }
    }
}

/// A cookie as a request carries it: its name, an equals sign, its value.
pub open spec fn cookie_text(name: Seq<char>, value: Seq<char>) -> Seq<char> {
    name + "="@ + value
}

/// The cookie header of the request for a token.
pub open spec fn cookie_header_text(sp_dc: Seq<char>, sp_key: Seq<char>) -> Seq<char> {
    cookie_text("sp_dc"@, sp_dc) + "; "@ + cookie_text("sp_key"@, sp_key)
}

/// A cookie of the given name and value as the `cookie` crate writes it:
/// `Cookie::new(name, value).to_string()`. A cookie made by `new` has no
/// attributes, and its `Display` then writes the name, `=` and the value, both
/// as they are: that is the claim.
#[verifier::external_body]
fn cookie_pair(name: &str, value: &str) -> (r: String)
    ensures
        r@ == cookie_text(name@, value@),
{
    cookie::Cookie::new(name, value).to_string()
}

/// Writes the cookie header of the request for a token.
pub fn cookie_header(sp_dc: &str, sp_key: &str) -> (r: String)
    ensures
        r@ == cookie_header_text(sp_dc@, sp_key@),
{
    let mut buf = cookie_pair("sp_dc", sp_dc);
    let second = cookie_pair("sp_key", sp_key);
    buf.append("; ");
    buf.append(second.as_str());
    buf
}

/// The request for a token with the two cookies.
pub open spec fn token_request_view(sp_dc: Seq<char>, sp_key: Seq<char>) -> HttpRequestView {
    HttpRequestView {
        method: Method::Get,
        url: TOKEN_URL@,
        headers: seq![("user-agent"@, USER_AGENT@), ("cookie"@, cookie_header_text(sp_dc, sp_key))],
        query: Seq::empty(),
    }
}

/// Describes the request for a token.
pub fn token_request(sp_dc: &str, sp_key: &str) -> (r: HttpRequest)
    ensures
        r@ == token_request_view(sp_dc@, sp_key@),
{
    let cookies = cookie_header(sp_dc, sp_key);
    let mut headers: Vec<(String, String)> = Vec::new();
    headers.push(pair("user-agent", USER_AGENT));
    headers.push(pair("cookie", cookies.as_str()));
    let r = HttpRequest {
        method: Method::Get,
        url: String::from_str(TOKEN_URL),
        headers,
        query: Vec::new(),
    };
    assert(r@.headers =~= token_request_view(sp_dc@, sp_key@).headers);
    assert(r@.query =~= token_request_view(sp_dc@, sp_key@).query);
    r
}

/// Why no token was had.
#[derive(Debug, PartialEq, Eq)]
pub enum TokenError {
    /// The request could not be sent, or its answer could not be read; with
    /// what the transport said of it.
    Transport(String),
    /// The answer came with a status that does not report success.
    BadStatus(u16),
}

/// What a [`TokenError`] holds, its text as characters.
pub enum TokenErrorView {
    Transport(Seq<char>),
    BadStatus(u16),
}

impl View for TokenError {
    type V = TokenErrorView;

    open spec fn view(&self) -> TokenErrorView {
        match self {
            TokenError::Transport(text) => TokenErrorView::Transport(text@),
            TokenError::BadStatus(status) => TokenErrorView::BadStatus(*status),
        }
    }
}

/// The text of a failed request for a token.
pub open spec fn token_error_text(e: TokenErrorView) -> Seq<char> {
    match e {
        TokenErrorView::Transport(text) => text,
        TokenErrorView::BadStatus(status) => "bad response status: "@ + decimal(status as nat),
    }
}

impl TokenError {
    /// The error in words.
    pub fn message(&self) -> (r: String)
        ensures
            r@ == token_error_text(self@),
    {
        match self {
            TokenError::Transport(text) => text.clone(),
            TokenError::BadStatus(status) => {
                let mut buf = String::from_str("bad response status: ");
                push_decimal(&mut buf, *status as u64);
                buf
            },
        }
    }
}

/// What came of the request for a token.
#[derive(Debug, PartialEq, Eq)]
pub enum TokenReply {
    /// No answer: the request could not be sent.
    Failed(String),
    /// An answer with its status, and the token that its body holds or why
    /// the body could not be read.
    Answered(u16, Result<TokenResponse, String>),
}

/// What a [`TokenReply`] holds, its strings as characters.
pub enum TokenReplyView {
    Failed(Seq<char>),
    Answered(u16, Result<TokenResponseView, Seq<char>>),
}

impl View for TokenReply {
    type V = TokenReplyView;

    open spec fn view(&self) -> TokenReplyView {
        match self {
            TokenReply::Failed(text) => TokenReplyView::Failed(text@),
            TokenReply::Answered(status, Ok(token)) => TokenReplyView::Answered(
                *status,
                Ok(token@),
            ),
            TokenReply::Answered(status, Err(text)) => TokenReplyView::Answered(
                *status,
                Err(text@),
            ),
        }
    }
}

/// The token that an answer grants, or why it grants none. An answer that
/// does not report success is refused whatever its body holds.
pub open spec fn token_of(reply: TokenReplyView) -> Result<TokenResponseView, TokenErrorView> {
    match reply {
        TokenReplyView::Failed(text) => Err(TokenErrorView::Transport(text)),
        TokenReplyView::Answered(status, body) => if !is_success(status) {
            Err(TokenErrorView::BadStatus(status))
        } else {
            match body {
                Ok(token) => Ok(token),
                Err(text) => Err(TokenErrorView::Transport(text)),
            }
        },
    }
}

/// A token or the failure to get one, its strings as characters.
pub open spec fn token_view(r: Result<TokenResponse, TokenError>) -> Result<
    TokenResponseView,
    TokenErrorView,
> {
    match r {
        Ok(token) => Ok(token@),
        Err(e) => Err(e@),
    }
}

/// Reads the answer to the request for a token.
pub fn resolve_token(reply: TokenReply) -> (r: Result<TokenResponse, TokenError>)
    ensures
        token_view(r) == token_of(reply@),
{
    match reply {
        TokenReply::Failed(text) => Err(TokenError::Transport(text)),
        TokenReply::Answered(status, body) => {
            if !status_is_success(status) {
                Err(TokenError::BadStatus(status))
            } else {
                match body {
                    Ok(token) => Ok(token),
                    Err(text) => Err(TokenError::Transport(text)),
                }
            }
        },
    }
}

/// The token that an answer grants under the stricter rule, which takes
/// status 200 and no other: any other status is refused whatever the body
/// holds.
pub open spec fn token_of_exact(reply: TokenReplyView) -> Result<TokenResponseView, TokenErrorView> {
    match reply {
        TokenReplyView::Failed(text) => Err(TokenErrorView::Transport(text)),
        TokenReplyView::Answered(status, body) => if status != 200 {
            Err(TokenErrorView::BadStatus(status))
        } else {
            match body {
                Ok(token) => Ok(token),
                Err(text) => Err(TokenErrorView::Transport(text)),
            }
        },
    }
}

/// Reads the answer to the request for a token under the stricter rule.
pub fn resolve_token_exact(reply: TokenReply) -> (r: Result<TokenResponse, TokenError>)
    ensures
        token_view(r) == token_of_exact(reply@),
{
    match reply {
        TokenReply::Failed(text) => Err(TokenError::Transport(text)),
        TokenReply::Answered(status, body) => {
            if status != 200 {
                Err(TokenError::BadStatus(status))
            } else {
                match body {
                    Ok(token) => Ok(token),
                    Err(text) => Err(TokenError::Transport(text)),
                }
            }
        },
    }
}

/// The two rules agree on an unanswered request, and differ on an answer
/// exactly where its status is one of 201 to 299, which the stricter rule
/// refuses.
pub proof fn lemma_token_rules_differ_on_other_successes(
    text: Seq<char>,
    status: u16,
    body: Result<TokenResponseView, Seq<char>>,
)
    ensures
        token_of(TokenReplyView::Failed(text)) == token_of_exact(TokenReplyView::Failed(text)),
        token_of(TokenReplyView::Answered(status, body)) != token_of_exact(
            TokenReplyView::Answered(status, body),
        ) <==> 200 < status < 300,
        status != 200 ==> token_of_exact(TokenReplyView::Answered(status, body)) == Err::<
            TokenResponseView,
            TokenErrorView,
        >(TokenErrorView::BadStatus(status)),
{
}

} // verus!
