//! Finding the catalog track of a record: the search to send, and what its
//! answer means.

use vstd::prelude::*;
use crate::http::{bearer, bearer_text, is_success, pair, status_is_success, HttpRequest, HttpRequestView, Method};
use crate::query::{search_query, search_query_text};
use crate::record::{CatalogTrack, CatalogTrackView, Song, SongView};
use crate::text::{decimal, push_decimal};

verus! {

/// Where tracks are searched for.
pub const SEARCH_URL: &'static str = "https://api.spotify.com/v1/search";

/// Why a record found no track.
#[derive(Debug, PartialEq, Eq)]
pub enum MatchError {
    /// The request could not be built or sent, or its answer could not be
    /// read; with what the transport said of it.
    Transport(String),
    /// The answer came with a status that does not report success.
    BadStatus(u16),
    /// The search found nothing.
    NoResults,
}

/// What a [`MatchError`] holds, its text as characters.
pub enum MatchErrorView {
    Transport(Seq<char>),
    BadStatus(u16),
    NoResults,
}

impl View for MatchError {
    type V = MatchErrorView;

    open spec fn view(&self) -> MatchErrorView {
        match self {
            MatchError::Transport(text) => MatchErrorView::Transport(text@),
            MatchError::BadStatus(status) => MatchErrorView::BadStatus(*status),
            MatchError::NoResults => MatchErrorView::NoResults,
        }
    }
}

/// The text that reports a status which is not success.
pub open spec fn bad_status_text(status: u16) -> Seq<char> {
    "bad status code: "@ + decimal(status as nat)
}

/// Writes the text that reports a status which is not success.
pub fn bad_status_message(status: u16) -> (r: String)
    ensures
        r@ == bad_status_text(status),
{
    let mut buf = String::from_str("bad status code: ");
    push_decimal(&mut buf, status as u64);
    buf
}

/// The text of a failed search.
pub open spec fn match_error_text(e: MatchErrorView) -> Seq<char> {
    match e {
        MatchErrorView::Transport(text) => text,
        MatchErrorView::BadStatus(status) => bad_status_text(status),
        MatchErrorView::NoResults => "found zero tracks"@,
    }
}

impl MatchError {
    /// The error in words.
    pub fn message(&self) -> (r: String)
        ensures
            r@ == match_error_text(self@),
    {
        match self {
            MatchError::Transport(text) => text.clone(),
            MatchError::BadStatus(status) => bad_status_message(*status),
            MatchError::NoResults => String::from_str("found zero tracks"),
        }
    }
}

/// What came of a search.
#[derive(Debug, PartialEq, Eq)]
pub enum SearchReply {
    /// No answer: the request could not be built or sent.
    Failed(String),
    /// An answer with its status, and the tracks that its body lists in the
    /// order of the catalog's ranking, or why the body could not be read.
    Answered(u16, Result<Vec<CatalogTrack>, String>),
}

/// What a [`SearchReply`] holds, its strings as characters.
pub enum SearchReplyView {
    Failed(Seq<char>),
    Answered(u16, Result<Seq<CatalogTrackView>, Seq<char>>),
}

impl View for SearchReply {
    type V = SearchReplyView;

    open spec fn view(&self) -> SearchReplyView {
        match self {
            SearchReply::Failed(text) => SearchReplyView::Failed(text@),
            SearchReply::Answered(status, Ok(tracks)) => SearchReplyView::Answered(
                *status,
                Ok(tracks.deep_view()),
            ),
            SearchReply::Answered(status, Err(text)) => SearchReplyView::Answered(
                *status,
                Err(text@),
            ),
        }
    }
}

/// The search for a record with a bearer token: one request, for tracks only,
/// for one candidate at most.
pub open spec fn search_request_view(song: SongView, token: Seq<char>) -> HttpRequestView {
    HttpRequestView {
        method: Method::Get,
        url: SEARCH_URL@,
        headers: seq![("authorization"@, bearer_text(token))],
        query: seq![
            ("q"@, search_query_text(song.title, song.artist_name, song.album_title)),
            ("type"@, "track"@),
            ("limit"@, "1"@),
        ],
    }
}

/// Describes the search for a record.
pub fn search_request(song: &Song, token: &str) -> (r: HttpRequest)
    ensures
        r@ == search_request_view(song@, token@),
{
    let q = search_query(
        song.title.as_str(),
        song.artist_name.as_str(),
        song.album_title.as_str(),
    );
    let authorization = bearer(token);
    let mut headers: Vec<(String, String)> = Vec::new();
    headers.push(pair("authorization", authorization.as_str()));
    let mut query: Vec<(String, String)> = Vec::new();
    query.push(pair("q", q.as_str()));
    query.push(pair("type", "track"));
    query.push(pair("limit", "1"));
    let r = HttpRequest { method: Method::Get, url: String::from_str(SEARCH_URL), headers, query };
    assert(r@.headers =~= search_request_view(song@, token@).headers);
    assert(r@.query =~= search_request_view(song@, token@).query);
    r
}

/// What a search yields: the identifier of the first track that the catalog
/// ranks, or the reason why there is none. An answer that does not report
/// success is refused whatever its body holds.
pub open spec fn match_of(reply: SearchReplyView) -> Result<Seq<char>, MatchErrorView> {
    match reply {
        SearchReplyView::Failed(text) => Err(MatchErrorView::Transport(text)),
        SearchReplyView::Answered(status, body) => if !is_success(status) {
            Err(MatchErrorView::BadStatus(status))
        } else {
            match body {
                Err(text) => Err(MatchErrorView::Transport(text)),
                Ok(tracks) => if tracks.len() == 0 {
                    Err(MatchErrorView::NoResults)
                } else {
                    Ok(tracks[0].id)
                },
            }
        },
    }
}

/// A match or its failure, its strings as characters.
pub open spec fn match_view(r: Result<String, MatchError>) -> Result<Seq<char>, MatchErrorView> {
    match r {
        Ok(id) => Ok(id@),
        Err(e) => Err(e@),
    }
}

/// Reads the answer to a search.
pub fn resolve_search(reply: &SearchReply) -> (r: Result<String, MatchError>)
    ensures
        match_view(r) == match_of(reply@),
{
    match reply {
        SearchReply::Failed(text) => Err(MatchError::Transport(text.clone())),
        SearchReply::Answered(status, body) => {
            if !status_is_success(*status) {
                Err(MatchError::BadStatus(*status))
            } else {
                match body {
                    Err(text) => Err(MatchError::Transport(text.clone())),
                    Ok(tracks) => {
                        if tracks.len() == 0 {
                            Err(MatchError::NoResults)
                        } else {
                            Ok(tracks[0].id.clone())
                        }
                    },
                }
            }
        },
    }
}

/// A search can be repeated: the same record and token ask the same
/// question, and the same answer names the same track.
pub proof fn lemma_match_is_repeatable(
    song: Song,
    again: Song,
    token: &str,
    token_again: &str,
    reply: SearchReply,
    reply_again: SearchReply,
)
    requires
        song@ == again@,
        token@ == token_again@,
        reply@ == reply_again@,
    ensures
        search_request_view(song@, token@) == search_request_view(again@, token_again@),
        match_of(reply@) == match_of(reply_again@),
{
}

} // verus!
