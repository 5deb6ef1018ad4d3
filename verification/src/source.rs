//! Where the records come from: the batch, handed out record by record.

use vstd::prelude::*;
use std::collections::VecDeque;
use crate::record::{Scrobbled, Song, SongView};

verus! {

/// A batch that hands out its records one at a time, each once, in their
/// order; it cannot be started again.
pub struct RecordSource {
    total: u32,
    queue: VecDeque<Song>,
}

impl RecordSource {
    /// The records not handed out yet, in their order.
    pub closed spec fn remaining(&self) -> Seq<SongView> {
        self.queue.deep_view()
    }

    /// The number of records that the batch declared.
    pub closed spec fn declared(&self) -> u32 {
        self.total
    }

    /// Takes a batch over, with all its records still to hand out.
    pub fn new(batch: Scrobbled) -> (r: RecordSource)
        ensures
            r.remaining() == batch.songs.deep_view(),
            r.declared() == batch.total,
    {
        let total = batch.total;
        let mut songs = batch.songs;
        let mut queue: VecDeque<Song> = VecDeque::new();
        let ghost all = songs.deep_view();
        assert(songs.deep_view() + queue.deep_view() =~= all);
        while songs.len() > 0
            invariant
                songs.deep_view() + queue.deep_view() == all,
            decreases songs.len(),
        {
            let ghost front = songs.deep_view();
            let ghost back = queue.deep_view();
            let song = songs.pop().unwrap();
            queue.push_front(song);
            assert(songs.deep_view() + queue.deep_view() =~= front + back);
        }
        assert(queue.deep_view() =~= all);
        RecordSource { total, queue }
    }

    /// The number of records that the batch declared, which need not be the
    /// number it holds.
    pub fn total(&self) -> (r: u32)
        ensures
            r == self.declared(),
    {
        self.total
    }

    /// How many records are still to hand out.
    pub fn len(&self) -> (r: usize)
        ensures
            r == self.remaining().len(),
    {
        self.queue.len()
    }

    /// Hands out the next record, or nothing once all are out.
    pub fn next(&mut self) -> (r: Option<Song>)
        ensures
            final(self).declared() == old(self).declared(),
            match r {
                Some(song) => {
                    &&& old(self).remaining().len() > 0
                    &&& song@ == old(self).remaining()[0]
                    &&& final(self).remaining() == old(self).remaining().drop_first()
                },
                None => {
                    &&& old(self).remaining().len() == 0
                    &&& final(self).remaining() == old(self).remaining()
                },
            },
    {
        let r = self.queue.pop_front();
        assert(r is Some ==> self.queue.deep_view() =~= old(self).queue.deep_view().drop_first());
        r
    }
}

} // verus!
