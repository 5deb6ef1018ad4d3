//! A batch as a whole: what its records come to, whoever works on them and
//! in whatever order.

use vstd::prelude::*;
use crate::collector::{added_count, lemma_tally_complete, lemma_tally_ignores_order, skipped_songs};
use crate::matcher::SearchReplyView;
use crate::mutator::AddReplyView;
use crate::record::SongView;
use crate::worker::{outcome_of, outcome_song, OutcomeView};

verus! {

/// What was answered to the requests of one record: to its search, and to
/// its save, which counts only where a save was sent.
pub struct Answers {
    pub search: SearchReplyView,
    pub add: AddReplyView,
}

/// The outcomes of a batch, in the order of its records: one for each
/// record, from the answers to that record's own requests.
pub open spec fn batch_outcomes(
    songs: Seq<SongView>,
    answers: Seq<Answers>,
    mutate: bool,
    token: Seq<char>,
) -> Seq<OutcomeView>
    recommends
        answers.len() == songs.len(),
{
    Seq::new(
        songs.len(),
        |i: int| outcome_of(songs[i], answers[i].search, answers[i].add, mutate, token),
    )
}

/// Every record has exactly one outcome, which is about that record, and the
/// added and the skipped together are as many as the records.
pub proof fn lemma_one_outcome_per_record(
    songs: Seq<SongView>,
    answers: Seq<Answers>,
    mutate: bool,
    token: Seq<char>,
)
    requires
        answers.len() == songs.len(),
    ensures
        batch_outcomes(songs, answers, mutate, token).len() == songs.len(),
        forall|i: int|
            0 <= i < songs.len() ==> outcome_song(
                #[trigger] batch_outcomes(songs, answers, mutate, token)[i],
            ) == songs[i],
        added_count(batch_outcomes(songs, answers, mutate, token)) + skipped_songs(
            batch_outcomes(songs, answers, mutate, token),
        ).len() == songs.len(),
{
    lemma_tally_complete(batch_outcomes(songs, answers, mutate, token));
}

/// Two runs over the same batch with the same answers, in which every
/// outcome arrives once and in any order, end alike: the same outcomes, each
/// as often, the same number added, the same records skipped, and none of the
/// records lost.
pub proof fn lemma_runs_agree(
    songs: Seq<SongView>,
    answers: Seq<Answers>,
    mutate: bool,
    token: Seq<char>,
    first: Seq<OutcomeView>,
    second: Seq<OutcomeView>,
)
    requires
        answers.len() == songs.len(),
        first.to_multiset() == batch_outcomes(songs, answers, mutate, token).to_multiset(),
        second.to_multiset() == batch_outcomes(songs, answers, mutate, token).to_multiset(),
    ensures
        first.to_multiset() == second.to_multiset(),
        added_count(first) == added_count(second),
        skipped_songs(first).to_multiset() == skipped_songs(second).to_multiset(),
        added_count(first) + skipped_songs(first).len() == songs.len(),
{
    let outcomes = batch_outcomes(songs, answers, mutate, token);
    lemma_tally_ignores_order(first, second);
    lemma_tally_complete(first);
    first.to_multiset_ensures();
    outcomes.to_multiset_ensures();
}

} // verus!
