//! Saving a catalog track to the library: the request to send, and what its
//! answer means.

use vstd::prelude::*;
use crate::http::{bearer, bearer_text, is_success, pair, status_is_success, HttpRequest, HttpRequestView, Method};
use crate::matcher::{bad_status_message, bad_status_text};

verus! {

/// Where saved tracks are kept.
pub const LIBRARY_URL: &'static str = "https://api.spotify.com/v1/me/tracks";

/// Why a track was not saved.
#[derive(Debug, PartialEq, Eq)]
pub enum MutateError {
    /// The request could not be built or sent; with what the transport said
    /// of it.
    Transport(String),
    /// The answer came with a status that does not report success.
    BadStatus(u16),
}

/// What a [`MutateError`] holds, its text as characters.
pub enum MutateErrorView {
    Transport(Seq<char>),
    BadStatus(u16),
}

impl View for MutateError {
    type V = MutateErrorView;

    open spec fn view(&self) -> MutateErrorView {
        match self {
            MutateError::Transport(text) => MutateErrorView::Transport(text@),
            MutateError::BadStatus(status) => MutateErrorView::BadStatus(*status),
        }
    }
}

/// The text of a failed save.
pub open spec fn mutate_error_text(e: MutateErrorView) -> Seq<char> {
    match e {
        MutateErrorView::Transport(text) => text,
        MutateErrorView::BadStatus(status) => bad_status_text(status),
    }
}

impl MutateError {
    /// The error in words.
    pub fn message(&self) -> (r: String)
        ensures
            r@ == mutate_error_text(self@),
    {
        match self {
            MutateError::Transport(text) => text.clone(),
            MutateError::BadStatus(status) => bad_status_message(*status),
        }
    }
}

/// What came of a request to save a track.
#[derive(Debug, PartialEq, Eq)]
pub enum AddReply {
    /// No answer: the request could not be built or sent.
    Failed(String),
    /// An answer, with its status.
    Answered(u16),
}

/// What an [`AddReply`] holds, its text as characters.
pub enum AddReplyView {
    Failed(Seq<char>),
    Answered(u16),
}

impl View for AddReply {
    type V = AddReplyView;

    open spec fn view(&self) -> AddReplyView {
        match self {
            AddReply::Failed(text) => AddReplyView::Failed(text@),
            AddReply::Answered(status) => AddReplyView::Answered(*status),
        }
    }
}

/// The request that saves the track `id` with a bearer token: one request,
/// without a body, that names the track in its query.
pub open spec fn add_request_view(id: Seq<char>, token: Seq<char>) -> HttpRequestView {
    HttpRequestView {
        method: Method::Put,
        url: LIBRARY_URL@,
        headers: seq![("authorization"@, bearer_text(token)), ("content-length"@, "0"@)],
        query: seq![("ids"@, id)],
    }
}

/// Describes the request that saves a track.
pub fn add_request(id: &str, token: &str) -> (r: HttpRequest)
    ensures
        r@ == add_request_view(id@, token@),
{
    let authorization = bearer(token);
    let mut headers: Vec<(String, String)> = Vec::new();
    headers.push(pair("authorization", authorization.as_str()));
    headers.push(pair("content-length", "0"));
    let mut query: Vec<(String, String)> = Vec::new();
    query.push(pair("ids", id));
    let r = HttpRequest { method: Method::Put, url: String::from_str(LIBRARY_URL), headers, query };
    assert(r@.headers =~= add_request_view(id@, token@).headers);
    assert(r@.query =~= add_request_view(id@, token@).query);
    r
}

/// Whether a track was saved: it was if and only if an answer came and its
/// status reports success.
pub open spec fn saved_of(reply: AddReplyView) -> Result<(), MutateErrorView> {
    match reply {
        AddReplyView::Failed(text) => Err(MutateErrorView::Transport(text)),
        AddReplyView::Answered(status) => if is_success(status) {
            Ok(())
        } else {
            Err(MutateErrorView::BadStatus(status))
        },
    }
}

/// A save or its failure, its text as characters.
pub open spec fn saved_view(r: Result<(), MutateError>) -> Result<(), MutateErrorView> {
    match r {
        Ok(()) => Ok(()),
        Err(e) => Err(e@),
    }
}

/// Reads the answer to a request to save a track.
pub fn resolve_add(reply: &AddReply) -> (r: Result<(), MutateError>)
    ensures
        saved_view(r) == saved_of(reply@),
{
    match reply {
        AddReply::Failed(text) => Err(MutateError::Transport(text.clone())),
        AddReply::Answered(status) => {
            if status_is_success(*status) {
                Ok(())
            } else {
                Err(MutateError::BadStatus(*status))
            }
        },
    }
}

} // verus!
