//! The pool of workers as a model: any number of workers take the records of
//! a batch one by one and hand in what became of each, in any interleaving.
//! What arrives is the same whatever the number of workers and whatever the
//! interleaving.

use vstd::prelude::*;
use vstd::multiset::Multiset;
use crate::collector::{added_count, lemma_tally_complete, lemma_tally_ignores_order, skipped_songs};
use crate::http::HttpRequestView;
use crate::matcher::{search_request_view, SearchReplyView};
use crate::mutator::AddReplyView;
use crate::record::SongView;
use crate::worker::{outcome_after_add, step_after_search, OutcomeView, StepView};

verus! {

/// The other side: what it answers to a search and to a save. The same
/// request gets the same answer for as long as a run lasts.
pub struct Remote {
    pub search: spec_fn(HttpRequestView) -> SearchReplyView,
    pub add: spec_fn(HttpRequestView) -> AddReplyView,
}

/// What becomes of a record at a given remote: the search that the record
/// asks for is answered, and so is the save, where one is sent.
pub open spec fn settled(song: SongView, remote: Remote, mutate: bool, token: Seq<char>) -> OutcomeView {
    match step_after_search(
        song,
        (remote.search)(search_request_view(song, token)),
        mutate,
        token,
    ) {
        StepView::Done(outcome) => outcome,
        StepView::Save(song, id, request) => outcome_after_add(song, id, (remote.add)(request)),
    }
}

/// What becomes of each record of a run.
pub open spec fn settling(remote: Remote, mutate: bool, token: Seq<char>) -> spec_fn(
    SongView,
) -> OutcomeView {
    |song: SongView| settled(song, remote, mutate, token)
}

/// A pool at some moment of a run.
pub struct Pool {
    /// The records that no worker has taken yet, in their order.
    pub waiting: Seq<SongView>,
    /// For each worker, the record that it works on, if any.
    pub at_work: Seq<Option<SongView>>,
    /// The outcomes handed in, in the order of their arrival.
    pub arrived: Seq<OutcomeView>,
}

/// What a worker can do.
pub enum Move {
    /// The worker of this number takes the next record.
    Take(int),
    /// The worker of this number hands in the outcome of its record.
    Emit(int),
}

/// The pool before anything has happened.
pub open spec fn start(songs: Seq<SongView>, workers: nat) -> Pool {
    Pool {
        waiting: songs,
        at_work: Seq::new(workers, |w: int| None::<SongView>),
        arrived: Seq::empty(),
    }
}

/// Whether a move can be made: an idle worker takes a record where one
/// waits, and a worker with a record hands in.
pub open spec fn can_move(pool: Pool, m: Move) -> bool {
    match m {
        Move::Take(w) => 0 <= w < pool.at_work.len() && pool.at_work[w] is None
            && pool.waiting.len() > 0,
        Move::Emit(w) => 0 <= w < pool.at_work.len() && pool.at_work[w] is Some,
    }
}

/// The pool after a move.
pub open spec fn moved(pool: Pool, m: Move, settle: spec_fn(SongView) -> OutcomeView) -> Pool {
    match m {
        Move::Take(w) => Pool {
            waiting: pool.waiting.drop_first(),
            at_work: pool.at_work.update(w, Some(pool.waiting[0])),
            arrived: pool.arrived,
        },
        Move::Emit(w) => Pool {
            waiting: pool.waiting,
            at_work: pool.at_work.update(w, None),
            arrived: pool.arrived.push(settle(pool.at_work[w]->0)),
        },
    }
}

/// The pool after a sequence of moves.
pub open spec fn after(pool: Pool, moves: Seq<Move>, settle: spec_fn(SongView) -> OutcomeView) -> Pool
    decreases moves.len(),
{
    if moves.len() == 0 {
        pool
    } else {
        moved(after(pool, moves.drop_last(), settle), moves.last(), settle)
    }
}

/// Whether each move of a sequence can be made when its turn comes.
pub open spec fn legal(pool: Pool, moves: Seq<Move>, settle: spec_fn(SongView) -> OutcomeView) -> bool
    decreases moves.len(),
{
    moves.len() == 0 || (legal(pool, moves.drop_last(), settle) && can_move(
        after(pool, moves.drop_last(), settle),
        moves.last(),
    ))
}

/// Whether a run is over: no record waits and no worker holds one.
pub open spec fn finished(pool: Pool) -> bool {
    pool.waiting.len() == 0 && forall|w: int|
        0 <= w < pool.at_work.len() ==> (#[trigger] pool.at_work[w]) is None
}

/// A complete run of `workers` workers over `songs`: moves that can all be
/// made and that leave nothing to do.
pub open spec fn complete_run(
    songs: Seq<SongView>,
    workers: nat,
    moves: Seq<Move>,
    settle: spec_fn(SongView) -> OutcomeView,
) -> bool {
    legal(start(songs, workers), moves, settle) && finished(
        after(start(songs, workers), moves, settle),
    )
}

/// The outcomes that the workers still hold.
spec fn in_flight(at_work: Seq<Option<SongView>>, settle: spec_fn(SongView) -> OutcomeView) -> Multiset<
    OutcomeView,
>
    decreases at_work.len(),
{
    if at_work.len() == 0 {
        Multiset::empty()
    } else {
        let rest = in_flight(at_work.drop_last(), settle);
        match at_work.last() {
            Some(song) => rest.insert(settle(song)),
            None => rest,
        }
    }
}

/// Nothing is lost and nothing is made up: what has arrived, what the
/// workers hold and what waits are together the outcomes of the batch.
spec fn accounted(pool: Pool, songs: Seq<SongView>, settle: spec_fn(SongView) -> OutcomeView) -> bool {
    pool.arrived.to_multiset().add(in_flight(pool.at_work, settle)).add(
        pool.waiting.map_values(settle).to_multiset(),
    ) == songs.map_values(settle).to_multiset()
}

proof fn lemma_idle_workers_hold_nothing(
    at_work: Seq<Option<SongView>>,
    settle: spec_fn(SongView) -> OutcomeView,
)
    requires
        forall|w: int| 0 <= w < at_work.len() ==> (#[trigger] at_work[w]) is None,
    ensures
        in_flight(at_work, settle) == Multiset::<OutcomeView>::empty(),
    decreases at_work.len(),
{
    if at_work.len() > 0 {
        lemma_idle_workers_hold_nothing(at_work.drop_last(), settle);
    }
}

proof fn lemma_in_flight_update(
    at_work: Seq<Option<SongView>>,
    w: int,
    song: SongView,
    settle: spec_fn(SongView) -> OutcomeView,
)
    requires
        0 <= w < at_work.len(),
        at_work[w] is None,
    ensures
        in_flight(at_work.update(w, Some(song)), settle) == in_flight(at_work, settle).insert(
            settle(song),
        ),
    decreases at_work.len(),
{
    broadcast use vstd::multiset::group_multiset_axioms;

    let busy = at_work.update(w, Some(song));
    if w == at_work.len() - 1 {
        assert(busy.drop_last() =~= at_work.drop_last());
    } else {
        lemma_in_flight_update(at_work.drop_last(), w, song, settle);
        assert(busy.drop_last() =~= at_work.drop_last().update(w, Some(song)));
        let rest = in_flight(at_work.drop_last(), settle);
        match at_work.last() {
            Some(other) => {
                assert(rest.insert(settle(song)).insert(settle(other)) =~= rest.insert(
                    settle(other),
                ).insert(settle(song)));
            },
            None => {},
        }
    }
}

proof fn lemma_move_keeps_account(
    pool: Pool,
    m: Move,
    songs: Seq<SongView>,
    settle: spec_fn(SongView) -> OutcomeView,
)
    requires
        accounted(pool, songs, settle),
        can_move(pool, m),
    ensures
        accounted(moved(pool, m, settle), songs, settle),
        moved(pool, m, settle).at_work.len() == pool.at_work.len(),
{
    broadcast use vstd::multiset::group_multiset_axioms;

    let next = moved(pool, m, settle);
    match m {
        Move::Take(w) => {
            let song = pool.waiting[0];
            let rest = pool.waiting.drop_first();
            lemma_in_flight_update(pool.at_work, w, song, settle);
            assert(pool.waiting.map_values(settle) =~= seq![settle(song)] + rest.map_values(
                settle,
            ));
            vstd::seq_lib::lemma_multiset_commutative(
                seq![settle(song)],
                rest.map_values(settle),
            );
            Seq::<OutcomeView>::empty().to_multiset_ensures();
            assert(Seq::<OutcomeView>::empty().push(settle(song)) =~= seq![settle(song)]);
            assert(seq![settle(song)].to_multiset() =~= Multiset::<OutcomeView>::empty().insert(
                settle(song),
            ));
            assert(next.arrived.to_multiset().add(in_flight(next.at_work, settle)).add(
                next.waiting.map_values(settle).to_multiset(),
            ) =~= pool.arrived.to_multiset().add(in_flight(pool.at_work, settle)).add(
                pool.waiting.map_values(settle).to_multiset(),
            ));
        },
        Move::Emit(w) => {
            let song = pool.at_work[w]->0;
            lemma_in_flight_update(next.at_work, w, song, settle);
            assert(next.at_work.update(w, Some(song)) =~= pool.at_work);
            pool.arrived.to_multiset_ensures();
            assert(next.arrived.to_multiset().add(in_flight(next.at_work, settle)).add(
                next.waiting.map_values(settle).to_multiset(),
            ) =~= pool.arrived.to_multiset().add(in_flight(pool.at_work, settle)).add(
                pool.waiting.map_values(settle).to_multiset(),
            ));
        },
    }
}

proof fn lemma_run_keeps_account(
    songs: Seq<SongView>,
    workers: nat,
    moves: Seq<Move>,
    settle: spec_fn(SongView) -> OutcomeView,
)
    requires
        legal(start(songs, workers), moves, settle),
    ensures
        accounted(after(start(songs, workers), moves, settle), songs, settle),
        after(start(songs, workers), moves, settle).at_work.len() == workers,
    decreases moves.len(),
{
    broadcast use vstd::multiset::group_multiset_axioms;

    if moves.len() == 0 {
        let pool = start(songs, workers);
        lemma_idle_workers_hold_nothing(pool.at_work, settle);
        pool.arrived.to_multiset_ensures();
        assert(pool.arrived.to_multiset() =~= Multiset::<OutcomeView>::empty());
        assert(pool.arrived.to_multiset().add(in_flight(pool.at_work, settle)).add(
            pool.waiting.map_values(settle).to_multiset(),
        ) =~= songs.map_values(settle).to_multiset());
    } else {
        lemma_run_keeps_account(songs, workers, moves.drop_last(), settle);
        lemma_move_keeps_account(
            after(start(songs, workers), moves.drop_last(), settle),
            moves.last(),
            songs,
            settle,
        );
    }
}

/// What a complete run hands in: the outcome of every record of the batch,
/// each as often as the record is in the batch, and nothing else.
pub proof fn lemma_complete_run_hands_in_the_batch(
    songs: Seq<SongView>,
    workers: nat,
    moves: Seq<Move>,
    settle: spec_fn(SongView) -> OutcomeView,
)
    requires
        complete_run(songs, workers, moves, settle),
    ensures
        after(start(songs, workers), moves, settle).arrived.to_multiset() == songs.map_values(
            settle,
        ).to_multiset(),
        after(start(songs, workers), moves, settle).arrived.len() == songs.len(),
{
    broadcast use vstd::multiset::group_multiset_axioms;

    let pool = after(start(songs, workers), moves, settle);
    lemma_run_keeps_account(songs, workers, moves, settle);
    lemma_idle_workers_hold_nothing(pool.at_work, settle);
    assert(pool.waiting.map_values(settle) =~= Seq::<OutcomeView>::empty());
    Seq::<OutcomeView>::empty().to_multiset_ensures();
    assert(Seq::<OutcomeView>::empty().to_multiset() =~= Multiset::<OutcomeView>::empty());
    assert(pool.arrived.to_multiset() =~= songs.map_values(settle).to_multiset());
    pool.arrived.to_multiset_ensures();
    songs.map_values(settle).to_multiset_ensures();
}

/// The moves of a single worker that takes `count` records and hands each
/// in before it takes the next.
pub open spec fn one_by_one(count: nat) -> Seq<Move>
    decreases count,
{
    if count == 0 {
        Seq::empty()
    } else {
        one_by_one((count - 1) as nat).push(Move::Take(0)).push(Move::Emit(0))
    }
}

proof fn lemma_one_by_one_gets_there(
    songs: Seq<SongView>,
    workers: nat,
    count: nat,
    settle: spec_fn(SongView) -> OutcomeView,
)
    requires
        workers >= 1,
        count <= songs.len(),
    ensures
        legal(start(songs, workers), one_by_one(count), settle),
        after(start(songs, workers), one_by_one(count), settle) == (Pool {
            waiting: songs.skip(count as int),
            at_work: start(songs, workers).at_work,
            arrived: songs.take(count as int).map_values(settle),
        }),
    decreases count,
{
    let first = start(songs, workers);
    if count == 0 {
        assert(songs.skip(0) =~= songs);
        assert(songs.take(0).map_values(settle) =~= Seq::<OutcomeView>::empty());
    } else {
        let before = one_by_one((count - 1) as nat);
        let taken = before.push(Move::Take(0));
        let handed = taken.push(Move::Emit(0));
        lemma_one_by_one_gets_there(songs, workers, (count - 1) as nat, settle);
        assert(taken.drop_last() =~= before);
        assert(handed.drop_last() =~= taken);
        let idle = after(first, before, settle);
        let busy = after(first, taken, settle);
        let done = after(first, handed, settle);
        assert(taken.last() == Move::Take(0));
        assert(handed.last() == Move::Emit(0));
        assert(busy == moved(idle, Move::Take(0), settle));
        assert(done == moved(busy, Move::Emit(0), settle));
        assert(idle.waiting[0] == songs[count - 1]);
        assert(can_move(idle, Move::Take(0)));
        assert(legal(first, taken, settle));
        assert(can_move(busy, Move::Emit(0)));
        assert(legal(first, handed, settle));
        assert(one_by_one(count) == handed);
        assert(done.waiting =~= songs.skip(count as int));
        assert(done.at_work =~= first.at_work);
        assert(done.arrived =~= songs.take(count as int).map_values(settle));
    }
}

/// With one worker or more, every batch can be worked off: a complete run
/// exists, so what is said of complete runs is said of something.
pub proof fn lemma_a_complete_run_exists(
    songs: Seq<SongView>,
    workers: nat,
    settle: spec_fn(SongView) -> OutcomeView,
)
    requires
        workers >= 1,
    ensures
        complete_run(songs, workers, one_by_one(songs.len()), settle),
        after(start(songs, workers), one_by_one(songs.len()), settle).arrived == songs.map_values(
            settle,
        ),
{
    lemma_one_by_one_gets_there(songs, workers, songs.len(), settle);
    assert(songs.take(songs.len() as int) =~= songs);
}

/// The number of workers does not matter, nor does the order in which they
/// get their turn: two complete runs over the same batch at the same remote,
/// each with any number of workers, hand in the same outcomes, each as often;
/// they count the same number of added records and keep the same skipped
/// records; and each hands in as many outcomes as the batch has records.
pub proof fn lemma_worker_count_does_not_matter(
    songs: Seq<SongView>,
    remote: Remote,
    mutate: bool,
    token: Seq<char>,
    workers: nat,
    moves: Seq<Move>,
    other_workers: nat,
    other_moves: Seq<Move>,
)
    requires
        complete_run(songs, workers, moves, settling(remote, mutate, token)),
        complete_run(songs, other_workers, other_moves, settling(remote, mutate, token)),
    ensures
        ({
            let arrived = after(
                start(songs, workers),
                moves,
                settling(remote, mutate, token),
            ).arrived;
            let other_arrived = after(
                start(songs, other_workers),
                other_moves,
                settling(remote, mutate, token),
            ).arrived;
            &&& arrived.to_multiset() == other_arrived.to_multiset()
            &&& arrived.len() == songs.len()
            &&& other_arrived.len() == songs.len()
            &&& added_count(arrived) == added_count(other_arrived)
            &&& skipped_songs(arrived).to_multiset() == skipped_songs(other_arrived).to_multiset()
            &&& added_count(arrived) + skipped_songs(arrived).len() == songs.len()
        }),
{
    let settle = settling(remote, mutate, token);
    lemma_complete_run_hands_in_the_batch(songs, workers, moves, settle);
    lemma_complete_run_hands_in_the_batch(songs, other_workers, other_moves, settle);
    let arrived = after(start(songs, workers), moves, settle).arrived;
    let other_arrived = after(start(songs, other_workers), other_moves, settle).arrived;
    lemma_tally_ignores_order(arrived, other_arrived);
    lemma_tally_complete(arrived);
}

} // verus!
