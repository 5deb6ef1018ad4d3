//! Counting what became of the records.

use vstd::prelude::*;
use crate::message::{Level, Message, MessageView};
use crate::record::{song_text, Song, SongView};
use crate::worker::{Outcome, OutcomeView};

verus! {

/// Whether an outcome counts as added.
pub open spec fn is_added(outcome: OutcomeView) -> bool {
    outcome is Added
}

/// The record of an outcome that is a skip.
pub open spec fn skipped_song(outcome: OutcomeView) -> Option<SongView> {
    match outcome {
        OutcomeView::Skipped(song, _) => Some(song),
        OutcomeView::Added(_, _) => None,
    }
}

/// How many of `outcomes` are added.
pub open spec fn added_count(outcomes: Seq<OutcomeView>) -> nat {
    outcomes.filter(|o: OutcomeView| is_added(o)).len()
}

/// The records that `outcomes` skip, in the order of `outcomes`.
pub open spec fn skipped_songs(outcomes: Seq<OutcomeView>) -> Seq<SongView> {
    outcomes.filter_map(|o: OutcomeView| skipped_song(o))
}

/// What the log says of an outcome: of an added record its name and the
/// track's identifier, of a skipped one the reason and its name.
pub open spec fn outcome_message(outcome: OutcomeView) -> MessageView {
    match outcome {
        OutcomeView::Added(song, id) => MessageView {
            level: Level::Info,
            text: "added "@ + song_text(song) + " "@ + id,
        },
        OutcomeView::Skipped(song, reason) => MessageView {
            level: Level::Error,
            text: reason + "; skipped "@ + song_text(song),
        },
    }
}

/// The one reader of the outcomes: it counts the added and keeps the records
/// that were skipped.
pub struct Collector {
    added: usize,
    skipped: Vec<Song>,
    seen: Ghost<Seq<OutcomeView>>,
}

impl View for Collector {
    type V = Seq<OutcomeView>;

    /// The outcomes received so far, in the order of their arrival.
    closed spec fn view(&self) -> Seq<OutcomeView> {
        self.seen@
    }
}

impl Collector {
    /// The count and the list are those of the outcomes received.
    pub closed spec fn wf(&self) -> bool {
        &&& self.added == added_count(self.seen@)
        &&& self.skipped.deep_view() == skipped_songs(self.seen@)
    }

    /// A collector that has received nothing.
    pub fn new() -> (r: Collector)
        ensures
            r.wf(),
            r@ == Seq::<OutcomeView>::empty(),
    {
        let r = Collector { added: 0, skipped: Vec::new(), seen: Ghost(Seq::empty()) };
        assert(r.skipped.deep_view() =~= skipped_songs(Seq::empty()));
        r
    }

    /// How many of the outcomes received are added.
    pub fn added(&self) -> (r: usize)
        requires
            self.wf(),
        ensures
            r == added_count(self@),
    {
        self.added
    }

    /// The records that were skipped, in the order of their arrival.
    pub fn skipped(&self) -> (r: &Vec<Song>)
        requires
            self.wf(),
        ensures
            r.deep_view() == skipped_songs(self@),
    {
        &self.skipped
    }

    /// Gives up the count of the added and the records that were skipped.
    pub fn into_parts(self) -> (r: (usize, Vec<Song>))
        requires
            self.wf(),
        ensures
            r.0 == added_count(self@),
            r.1.deep_view() == skipped_songs(self@),
    {
        (self.added, self.skipped)
    }

    /// Receives one outcome, and says what the log should hold of it.
    pub fn record(&mut self, outcome: Outcome) -> (r: Message)
        requires
            old(self).wf(),
            added_count(old(self)@) < usize::MAX,
        ensures
            final(self).wf(),
            final(self)@ == old(self)@.push(outcome@),
            r@ == outcome_message(outcome@),
    {
        let ghost before = self.seen@;
        proof {
            lemma_tally_push(before, outcome@);
        }
        self.seen = Ghost(before.push(outcome@));
        match outcome {
            Outcome::Added(song, id) => {
                self.added = self.added + 1;
                let mut text = String::from_str("added ");
                let name = song.describe();
                text.append(name.as_str());
                text.append(" ");
                text.append(id.as_str());
                assert(text@ =~= outcome_message(outcome@).text);
                Message { level: Level::Info, text }
            },
            Outcome::Skipped(song, reason) => {
                let mut text = reason;
                let name = song.describe();
                text.append("; skipped ");
                text.append(name.as_str());
                self.skipped.push(song);
                assert(self.skipped.deep_view() =~= old(self).skipped.deep_view().push(song@));
                Message { level: Level::Error, text }
            },
        }
    }
}

/// One more outcome adds one to the count or one record to the list.
pub proof fn lemma_tally_push(outcomes: Seq<OutcomeView>, outcome: OutcomeView)
    ensures
        added_count(outcomes.push(outcome)) == added_count(outcomes) + if is_added(outcome) {
            1nat
        } else {
            0nat
        },
        skipped_songs(outcomes.push(outcome)) == match skipped_song(outcome) {
            Some(song) => skipped_songs(outcomes).push(song),
            None => skipped_songs(outcomes),
        },
{
    outcomes.lemma_filter_push(outcome, |o: OutcomeView| is_added(o));
    assert(outcomes.push(outcome).drop_last() =~= outcomes);
    match skipped_song(outcome) {
        Some(song) => {
            assert(skipped_songs(outcomes) + seq![song] =~= skipped_songs(outcomes).push(song));
        },
        None => {},
    }
}

/// Every outcome is counted once: the added and the skipped together are as
/// many as the outcomes received.
pub proof fn lemma_tally_complete(outcomes: Seq<OutcomeView>)
    ensures
        added_count(outcomes) + skipped_songs(outcomes).len() == outcomes.len(),
    decreases outcomes.len(),
{
    if outcomes.len() > 0 {
        let rest = outcomes.drop_last();
        lemma_tally_complete(rest);
        lemma_tally_push(rest, outcomes.last());
        assert(rest.push(outcomes.last()) =~= outcomes);
    }
}

/// Taking one outcome out takes one from the count or one record from the
/// list.
proof fn lemma_tally_remove(outcomes: Seq<OutcomeView>, i: int)
    requires
        0 <= i < outcomes.len(),
    ensures
        added_count(outcomes) == added_count(outcomes.remove(i)) + if is_added(outcomes[i]) {
            1nat
        } else {
            0nat
        },
        skipped_songs(outcomes).to_multiset() == match skipped_song(outcomes[i]) {
            Some(song) => skipped_songs(outcomes.remove(i)).to_multiset().insert(song),
            None => skipped_songs(outcomes.remove(i)).to_multiset(),
        },
    decreases outcomes.len(),
{
    let rest = outcomes.drop_last();
    let last = outcomes.last();
    assert(rest.push(last) =~= outcomes);
    skipped_songs(rest).to_multiset_ensures();
    skipped_songs(rest.remove(i)).to_multiset_ensures();
    lemma_tally_push(rest, last);
    if i == outcomes.len() - 1 {
        assert(outcomes.remove(i) =~= rest);
    } else {
        lemma_tally_remove(rest, i);
        assert(rest.remove(i).push(last) =~= outcomes.remove(i));
        lemma_tally_push(rest.remove(i), last);
        let kept = skipped_songs(rest.remove(i)).to_multiset();
        match (skipped_song(outcomes[i]), skipped_song(last)) {
            (Some(a), Some(b)) => {
                assert(kept.insert(a).insert(b) =~= kept.insert(b).insert(a));
            },
            _ => {},
        }
    }
}

/// The order in which the outcomes arrive does not matter: two runs that
/// receive the same outcomes, each as often as the other, count the same
/// number of added records and keep the same skipped records, each as often.
pub proof fn lemma_tally_ignores_order(a: Seq<OutcomeView>, b: Seq<OutcomeView>)
    requires
        a.to_multiset() == b.to_multiset(),
    ensures
        added_count(a) == added_count(b),
        skipped_songs(a).to_multiset() == skipped_songs(b).to_multiset(),
    decreases a.len(),
{
    a.to_multiset_ensures();
    b.to_multiset_ensures();
    if a.len() == 0 {
        assert(a =~= b);
    } else {
        let rest = a.drop_last();
        let last = a.last();
        rest.to_multiset_ensures();
        assert(rest.push(last) =~= a);
        assert(a.contains(last));
        assert(b.to_multiset().count(last) > 0);
        assert(b.contains(last));
        let i = choose|i: int| 0 <= i < b.len() && b[i] == last;
        assert(rest.to_multiset() =~= a.to_multiset().remove(last));
        assert(b.remove(i).to_multiset() =~= rest.to_multiset());
        lemma_tally_ignores_order(rest, b.remove(i));
        lemma_tally_push(rest, last);
        skipped_songs(rest).to_multiset_ensures();
        lemma_tally_remove(b, i);
    }
}

} // verus!
