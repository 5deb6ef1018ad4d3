//! One record's way through the import: a search, then, where changes are
//! wanted and a track was found, a save; at the end one outcome.
//!
//! A worker asks [`search_request`](crate::matcher::search_request) what to
//! send, sends it, and hands the answer to [`after_search`]. That either
//! settles the record or names the save to send, whose answer goes to
//! [`after_add`].

use vstd::prelude::*;
use crate::http::{HttpRequest, HttpRequestView};
use crate::matcher::{match_error_text, match_of, resolve_search, MatchErrorView, SearchReply, SearchReplyView};
use crate::mutator::{add_request, add_request_view, mutate_error_text, resolve_add, saved_of, AddReply, AddReplyView};
use crate::record::{Song, SongView};

verus! {

/// What became of a record.
#[derive(Debug, PartialEq, Eq)]
pub enum Outcome {
    /// The record has a track in the catalog, named by its identifier; where
    /// changes are wanted, the track was saved.
    Added(Song, String),
    /// The record was given up, for the reason told.
    Skipped(Song, String),
}

/// What an [`Outcome`] holds, its strings as characters.
pub enum OutcomeView {
    Added(SongView, Seq<char>),
    Skipped(SongView, Seq<char>),
}

impl View for Outcome {
    type V = OutcomeView;

    open spec fn view(&self) -> OutcomeView {
        match self {
            Outcome::Added(song, id) => OutcomeView::Added(song@, id@),
            Outcome::Skipped(song, reason) => OutcomeView::Skipped(song@, reason@),
        }
    }
}

impl DeepView for Outcome {
    type V = OutcomeView;

    open spec fn deep_view(&self) -> OutcomeView {
        self@
    }
}

/// The record that an outcome is about.
pub open spec fn outcome_song(outcome: OutcomeView) -> SongView {
    match outcome {
        OutcomeView::Added(song, _) => song,
        OutcomeView::Skipped(song, _) => song,
    }
}

/// The reason of a skip: the stage that failed, then the error in words.
pub open spec fn skip_reason(stage: Seq<char>, error: Seq<char>) -> Seq<char> {
    stage + ": "@ + error
}

/// Writes the reason of a skip.
fn reason(stage: &str, error: &str) -> (r: String)
    ensures
        r@ == skip_reason(stage@, error@),
{
    let mut buf = String::from_str(stage);
    buf.append(": ");
    buf.append(error);
    buf
}

/// Where a record stands once its search is answered.
#[derive(Debug, PartialEq, Eq)]
pub enum Step {
    /// A track was found and is to be saved: the record, the track's
    /// identifier, and the request to send.
    Save(Song, String, HttpRequest),
    /// The record is settled.
    Done(Outcome),
}

/// What a [`Step`] holds, its strings as characters.
pub enum StepView {
    Save(SongView, Seq<char>, HttpRequestView),
    Done(OutcomeView),
}

impl View for Step {
    type V = StepView;

    open spec fn view(&self) -> StepView {
        match self {
            Step::Save(song, id, request) => StepView::Save(song@, id@, request@),
            Step::Done(outcome) => StepView::Done(outcome@),
        }
    }
}

/// The step that follows a search. A failed search skips the record under
/// the stage "search track". A track found is saved next where `mutate` asks
/// for changes, and counts as added as it is where it does not.
pub open spec fn step_after_search(
    song: SongView,
    reply: SearchReplyView,
    mutate: bool,
    token: Seq<char>,
) -> StepView {
    match match_of(reply) {
        Err(e) => StepView::Done(
            OutcomeView::Skipped(song, skip_reason("search track"@, match_error_text(e))),
        ),
        Ok(id) => if mutate {
            StepView::Save(song, id, add_request_view(id, token))
        } else {
            StepView::Done(OutcomeView::Added(song, id))
        },
    }
}

/// The outcome that follows a save. A save that failed skips the record under
/// the stage "add track", although its track was found.
pub open spec fn outcome_after_add(song: SongView, id: Seq<char>, reply: AddReplyView) -> OutcomeView {
    match saved_of(reply) {
        Ok(()) => OutcomeView::Added(song, id),
        Err(e) => OutcomeView::Skipped(song, skip_reason("add track"@, mutate_error_text(e))),
    }
}

/// The outcome of a record whose search was answered by `search` and whose
/// save, if one was sent, by `add`.
pub open spec fn outcome_of(
    song: SongView,
    search: SearchReplyView,
    add: AddReplyView,
    mutate: bool,
    token: Seq<char>,
) -> OutcomeView {
    match step_after_search(song, search, mutate, token) {
        StepView::Done(outcome) => outcome,
        StepView::Save(song, id, _) => outcome_after_add(song, id, add),
    }
}

/// Decides what follows the search for `song`.
pub fn after_search(song: Song, reply: &SearchReply, mutate: bool, token: &str) -> (r: Step)
    ensures
        r@ == step_after_search(song@, reply@, mutate, token@),
{
    match resolve_search(reply) {
        Err(e) => {
            let text = e.message();
            Step::Done(Outcome::Skipped(song, reason("search track", text.as_str())))
        },
        Ok(id) => {
            if mutate {
                let request = add_request(id.as_str(), token);
                Step::Save(song, id, request)
            } else {
                Step::Done(Outcome::Added(song, id))
            }
        },
    }
}

/// Decides what became of `song`, whose track `id` was to be saved.
pub fn after_add(song: Song, id: String, reply: &AddReply) -> (r: Outcome)
    ensures
        r@ == outcome_after_add(song@, id@, reply@),
{
    match resolve_add(reply) {
        Ok(()) => Outcome::Added(song, id),
        Err(e) => {
            let text = e.message();
            Outcome::Skipped(song, reason("add track", text.as_str()))
        },
    }
}

/// What an outcome tells. It is about its record. The record counts as added
/// if and only if its track was found and, where changes are wanted, saved:
/// a track that was found and could not be saved is a skip. A skip names the
/// stage that failed before anything else.
pub proof fn lemma_outcome_tells_the_stage(
    song: SongView,
    search: SearchReplyView,
    add: AddReplyView,
    mutate: bool,
    token: Seq<char>,
)
    ensures
        outcome_song(outcome_of(song, search, add, mutate, token)) == song,
        outcome_of(song, search, add, mutate, token) is Added <==> match_of(search) is Ok && (mutate
            ==> saved_of(add) is Ok),
        outcome_of(song, search, add, mutate, token) matches OutcomeView::Added(_, id)
            ==> match_of(search) == Ok::<Seq<char>, MatchErrorView>(id),
        outcome_of(song, search, add, mutate, token) matches OutcomeView::Skipped(_, reason) ==> {
            if match_of(search) is Err {
                ("search track"@ + ": "@).is_prefix_of(reason)
            } else {
                ("add track"@ + ": "@).is_prefix_of(reason)
            }
        },
{
    match outcome_of(song, search, add, mutate, token) {
        OutcomeView::Skipped(_, reason) => {
            let stage = if match_of(search) is Err {
                "search track"@
            } else {
                "add track"@
            };
            assert(reason.subrange(0, (stage + ": "@).len() as int) =~= stage + ": "@);
        },
        OutcomeView::Added(_, _) => {},
    }
}

} // verus!
