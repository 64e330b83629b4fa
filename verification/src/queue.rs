//! The play queue: which track plays next or previously under the shuffle
//! and repeat settings, and how the queue changes when it is edited.
//!
//! The queue decides; the caller plays.  [`PlayQueue::next`] and
//! [`PlayQueue::prev`] move the position and answer with a [`Step`]: the
//! queue position to start playing, that playback should stop, or that
//! nothing happens.

use vstd::prelude::*;
use crate::types::{LoopMode, Track};
use rand::seq::SliceRandom;

verus! {

// ---------------------------------------------------------------------------
// Shuffling (rand)
// ---------------------------------------------------------------------------

/// `SliceRandom::shuffle` with the thread-local generator.  The claim is
/// only that the result is a rearrangement of the input (the crate swaps
/// elements in place); which rearrangement comes out is left open.
#[verifier::external_body]
fn shuffled(v: Vec<usize>) -> (r: Vec<usize>)
    ensures
        r@.to_multiset() == v@.to_multiset(),
{
    let mut v = v;
    v.shuffle(&mut rand::thread_rng());
    v
}

/// The indices `0, 1, ..., n - 1` in order.
pub open spec fn index_range(n: nat) -> Seq<usize> {
    Seq::new(n, |i: int| i as usize)
}

/// `order` lists each queue position below `n` exactly once.
pub open spec fn is_order_of(order: Seq<usize>, n: nat) -> bool {
    &&& order.len() == n
    &&& order.no_duplicates()
    &&& forall|i: int| 0 <= i < order.len() ==> (#[trigger] order[i]) < n
}

proof fn lemma_range_no_duplicates(n: nat)
    requires
        n <= usize::MAX,
    ensures
        index_range(n).no_duplicates(),
{
    let r = index_range(n);
    assert forall|i: int, j: int| 0 <= i < r.len() && 0 <= j < r.len() && i != j implies r[i]
        != r[j] by {}
}

/// A rearrangement of `0 .. n` lists each position below `n` exactly once.
proof fn lemma_rearranged_range(order: Seq<usize>, n: nat)
    requires
        order.to_multiset() == index_range(n).to_multiset(),
        n <= usize::MAX,
    ensures
        is_order_of(order, n),
        forall|x: usize| x < n ==> order.contains(x),
{
    broadcast use vstd::seq_lib::group_to_multiset_ensures;

    let r = index_range(n);
    lemma_range_no_duplicates(n);
    r.lemma_multiset_has_no_duplicates();
    assert(order.len() == order.to_multiset().len());
    assert(r.len() == r.to_multiset().len());
    assert(order.len() == n);
    assert forall|x: usize| order.to_multiset().contains(x) implies order.to_multiset().count(x)
        == 1 by {
        assert(r.to_multiset().contains(x));
    }
    order.lemma_multiset_has_no_duplicates_conv();
    assert forall|i: int| 0 <= i < order.len() implies (#[trigger] order[i]) < n by {
        assert(order.contains(order[i]));
        assert(order.to_multiset().count(order[i]) > 0);
        assert(r.to_multiset().count(order[i]) > 0);
        assert(r.contains(order[i]));
        let k = choose|k: int| 0 <= k < r.len() && r[k] == order[i];
        assert(r[k] == k as usize);
    }
    assert forall|x: usize| x < n implies order.contains(x) by {
        assert(r[x as int] == x);
        assert(r.contains(x));
        assert(r.to_multiset().count(x) > 0);
        assert(order.to_multiset().count(x) > 0);
    }
}

// ---------------------------------------------------------------------------
// The queue
// ---------------------------------------------------------------------------

/// What the player should do after a move in the queue.
#[derive(Debug, Clone, Copy, PartialEq, Eq, Structural)]
pub enum Step {
    /// Start playing the track at this queue position.
    Play(usize),
    /// Stop playback.
    Stop,
    /// Leave playback as it is.
    Stay,
}

/// The tracks queued for playback with the position of the current one and
/// the shuffle and repeat settings.
pub struct PlayQueue {
    pub queue: Vec<Track>,
    pub queue_index: usize,
    pub shuffle: bool,
    pub loop_mode: LoopMode,
    /// The shuffled playing order, as queue positions.
    pub shuffle_order: Vec<usize>,
}

/// The first position of `x` in `order`, or 0 when it does not occur.
pub open spec fn position_in(order: Seq<usize>, x: usize) -> int {
    if exists|p: int| 0 <= p < order.len() && order[p] == x {
        choose|p: int|
            0 <= p < order.len() && order[p] == x && forall|q: int|
                0 <= q < p ==> order[q] != x
    } else {
        0
    }
}

impl PlayQueue {
    /// The shuffle order is in use.
    pub open spec fn shuffling(&self) -> bool {
        self.shuffle && self.shuffle_order@.len() > 0
    }

    /// The queue position that follows the current one, or `None` when
    /// playback ends: the current one again under repeat-one; the next in
    /// shuffle or queue order; the first again at the end under repeat-all.
    pub open spec fn next_position(&self) -> Option<usize> {
        let n = self.queue@.len();
        let order = self.shuffle_order@;
        if n == 0 {
            None
        } else if self.loop_mode == LoopMode::One {
            Some(self.queue_index)
        } else if self.shuffling() {
            let p = position_in(order, self.queue_index);
            if p + 1 < order.len() {
                Some(order[p + 1])
            } else if self.loop_mode == LoopMode::All {
                Some(order[0])
            } else {
                None
            }
        } else if self.queue_index + 1 < n {
            Some((self.queue_index + 1) as usize)
        } else if self.loop_mode == LoopMode::All {
            Some(0)
        } else {
            None
        }
    }

    /// The queue position before the current one: the current one again
    /// under repeat-one or at the start without repeat; the last one from
    /// the start under repeat-all.
    pub open spec fn prev_position(&self) -> usize {
        let n = self.queue@.len();
        let order = self.shuffle_order@;
        if self.loop_mode == LoopMode::One {
            self.queue_index
        } else if self.shuffling() {
            let p = position_in(order, self.queue_index);
            if p > 0 {
                order[p - 1]
            } else if self.loop_mode == LoopMode::All {
                order.last()
            } else {
                self.queue_index
            }
        } else if self.queue_index > 0 {
            (self.queue_index - 1) as usize
        } else if self.loop_mode == LoopMode::All {
            (n - 1) as usize
        } else {
            self.queue_index
        }
    }

    /// The queue position is valid and the shuffle order only names
    /// positions in the queue.
    pub open spec fn well_formed(&self) -> bool {
        &&& self.queue@.len() > 0 ==> self.queue_index < self.queue@.len()
        &&& forall|i: int|
            0 <= i < self.shuffle_order@.len() ==> (#[trigger] self.shuffle_order@[i])
                < self.queue@.len()
    }

    /// An empty queue: no shuffle, no repeat.
    pub fn new() -> (r: PlayQueue)
        ensures
            r.queue@.len() == 0,
            r.queue_index == 0,
            !r.shuffle,
            r.loop_mode == LoopMode::Off,
            r.shuffle_order@.len() == 0,
            r.well_formed(),
    {
        PlayQueue {
            queue: Vec::new(),
            queue_index: 0,
            shuffle: false,
            loop_mode: LoopMode::Off,
            shuffle_order: Vec::new(),
        }
    }

    fn find_position(order: &Vec<usize>, x: usize) -> (p: usize)
        ensures
            p == position_in(order@, x),
            order@.len() > 0 ==> p < order@.len(),
    {
        let mut i: usize = 0;
        while i < order.len()
            invariant
                i <= order@.len(),
                forall|q: int| 0 <= q < i ==> order@[q] != x,
            decreases order@.len() - i,
        {
            if order[i] == x {
                let ghost p = i as int;
                assert(exists|p: int| 0 <= p < order@.len() && order@[p] == x);
                let ghost c = choose|p: int|
                    0 <= p < order@.len() && order@[p] == x && forall|q: int|
                        0 <= q < p ==> order@[q] != x;
                assert(c == p) by {
                    if c < p {
                        assert(order@[c] != x);
                    } else if c > p {
                        assert(order@[p] != x);
                    }
                }
                return i;
            }
            i = i + 1;
        }
        0
    }

    /// Moves to the track after the current one.  Plays it, or stops at the
    /// end of the queue (and on an empty queue); the position is left as it
    /// was when playback stops.
    pub fn next(&mut self) -> (step: Step)
        ensures
            final(self).queue@ == old(self).queue@,
            final(self).shuffle == old(self).shuffle,
            final(self).loop_mode == old(self).loop_mode,
            final(self).shuffle_order@ == old(self).shuffle_order@,
            match old(self).next_position() {
                Some(i) => step == Step::Play(i) && final(self).queue_index == i,
                None => step == Step::Stop && final(self).queue_index == old(self).queue_index,
            },
            old(self).well_formed() ==> final(self).well_formed(),
    {
        proof {
            if self.well_formed() {
                lemma_positions_in_queue(*self);
            }
        }
        let n = self.queue.len();
        if n == 0 {
            return Step::Stop;
        }
        if self.loop_mode == LoopMode::One {
            return Step::Play(self.queue_index);
        }
        if self.shuffle && self.shuffle_order.len() > 0 {
            let p = Self::find_position(&self.shuffle_order, self.queue_index);
            if p + 1 < self.shuffle_order.len() {
                self.queue_index = self.shuffle_order[p + 1];
            } else if self.loop_mode == LoopMode::All {
                self.queue_index = self.shuffle_order[0];
            } else {
                return Step::Stop;
            }
        } else if self.queue_index < n - 1 {
            self.queue_index = self.queue_index + 1;
        } else if self.loop_mode == LoopMode::All {
            self.queue_index = 0;
        } else {
            return Step::Stop;
        }
        Step::Play(self.queue_index)
    }

    /// Moves to the track before the current one and plays it; on an empty
    /// queue nothing happens.
    pub fn prev(&mut self) -> (step: Step)
        ensures
            final(self).queue@ == old(self).queue@,
            final(self).shuffle == old(self).shuffle,
            final(self).loop_mode == old(self).loop_mode,
            final(self).shuffle_order@ == old(self).shuffle_order@,
            old(self).queue@.len() == 0 ==> step == Step::Stay && final(self).queue_index
                == old(self).queue_index,
            old(self).queue@.len() > 0 ==> step == Step::Play(old(self).prev_position())
                && final(self).queue_index == old(self).prev_position(),
            old(self).well_formed() ==> final(self).well_formed(),
    {
        proof {
            if self.well_formed() {
                lemma_positions_in_queue(*self);
            }
        }
        let n = self.queue.len();
        if n == 0 {
            return Step::Stay;
        }
        if self.loop_mode == LoopMode::One {
            return Step::Play(self.queue_index);
        }
        if self.shuffle && self.shuffle_order.len() > 0 {
            let p = Self::find_position(&self.shuffle_order, self.queue_index);
            if p > 0 {
                self.queue_index = self.shuffle_order[p - 1];
            } else if self.loop_mode == LoopMode::All {
                self.queue_index = self.shuffle_order[self.shuffle_order.len() - 1];
            }
        } else if self.queue_index > 0 {
            self.queue_index = self.queue_index - 1;
        } else if self.loop_mode == LoopMode::All {
            self.queue_index = n - 1;
        }
        Step::Play(self.queue_index)
    }

    /// A fresh shuffle order: every queue position once, in random order,
    /// with the current position first; the current position stays.
    fn regenerate_shuffle_order(&mut self)
        ensures
            final(self).queue@ == old(self).queue@,
            final(self).shuffle == old(self).shuffle,
            final(self).loop_mode == old(self).loop_mode,
            old(self).queue@.len() == 0 ==> final(self).shuffle_order@.len() == 0,
            final(self).queue_index == old(self).queue_index,
            is_order_of(final(self).shuffle_order@, old(self).queue@.len()),
            old(self).queue_index < old(self).queue@.len() ==> final(self).shuffle_order@[0]
                == old(self).queue_index,
    {
        let len = self.queue.len();
        if len == 0 {
            self.shuffle_order.clear();
            return;
        }
        let mut indices: Vec<usize> = Vec::new();
        let mut i: usize = 0;
        while i < len
            invariant
                i <= len,
                indices@ == index_range(i as nat),
            decreases len - i,
        {
            indices.push(i);
            assert(indices@ =~= index_range((i + 1) as nat));
            i = i + 1;
        }
        let mut indices = shuffled(indices);
        proof {
            lemma_rearranged_range(indices@, len as nat);
        }
        let ghost before = indices@;
        let mut pos: usize = 0;
        while pos < indices.len() && indices[pos] != self.queue_index
            invariant
                pos <= indices@.len(),
                indices@ == before,
                forall|q: int| 0 <= q < pos ==> before[q] != self.queue_index,
            decreases indices@.len() - pos,
        {
            pos = pos + 1;
        }
        if pos < indices.len() {
            let a = indices[0];
            let b = indices[pos];
            indices.set(0, b);
            indices.set(pos, a);
            assert(indices@ =~= before.update(0, before[pos as int]).update(
                pos as int,
                before[0],
            ));
            proof {
                broadcast use vstd::seq_lib::group_to_multiset_ensures;

                lemma_swap_multiset(before, 0, pos as int);
                lemma_rearranged_range(indices@, len as nat);
            }
        } else {
            assert(!before.contains(self.queue_index));
            assert(self.queue_index >= len) by {
                if self.queue_index < len {
                    assert(before.contains(self.queue_index));
                }
            }
        }
        self.shuffle_order = indices;
    }

    /// Replaces the queue and the position; with shuffle on a new order is
    /// drawn, otherwise the order is dropped.
    pub fn set_queue(&mut self, tracks: Vec<Track>, start_index: usize)
        ensures
            final(self).queue@ == tracks@,
            final(self).shuffle == old(self).shuffle,
            final(self).loop_mode == old(self).loop_mode,
            final(self).queue_index == start_index,
            old(self).shuffle && tracks@.len() > 0 ==> is_order_of(
                final(self).shuffle_order@,
                tracks@.len(),
            ) && (start_index < tracks@.len() ==> final(self).shuffle_order@[0] == start_index),
            !(old(self).shuffle && tracks@.len() > 0) ==> final(self).shuffle_order@.len() == 0,
            start_index < tracks@.len() || tracks@.len() == 0 ==> final(self).well_formed(),
    {
        self.queue = tracks;
        self.queue_index = start_index;
        if self.shuffle && self.queue.len() > 0 {
            self.regenerate_shuffle_order();
        } else {
            self.shuffle_order.clear();
        }
    }

    /// Appends a track to the queue.
    pub fn add_to_queue(&mut self, track: Track)
        ensures
            final(self).queue@ == old(self).queue@.push(track),
            final(self).queue_index == old(self).queue_index,
            final(self).shuffle == old(self).shuffle,
            final(self).loop_mode == old(self).loop_mode,
            final(self).shuffle_order@ == old(self).shuffle_order@,
            old(self).well_formed() && (old(self).queue@.len() > 0 || old(self).queue_index == 0)
                ==> final(self).well_formed(),
    {
        self.queue.push(track);
    }

    /// Removes the track at `index`, if there is one; a position past the
    /// new end moves to the last track.
    pub fn remove_from_queue(&mut self, index: usize)
        ensures
            final(self).queue@ == if index < old(self).queue@.len() {
                old(self).queue@.remove(index as int)
            } else {
                old(self).queue@
            },
            final(self).queue_index == if index < old(self).queue@.len() && old(self).queue_index
                >= final(self).queue@.len() && final(self).queue@.len() > 0 {
                (final(self).queue@.len() - 1) as usize
            } else {
                old(self).queue_index
            },
            final(self).shuffle == old(self).shuffle,
            final(self).loop_mode == old(self).loop_mode,
            final(self).shuffle_order@ == old(self).shuffle_order@,
    {
        if index < self.queue.len() {
            self.queue.remove(index);
            if self.queue_index >= self.queue.len() && self.queue.len() > 0 {
                self.queue_index = self.queue.len() - 1;
            }
        }
    }

    /// Empties the queue.
    pub fn clear_queue(&mut self)
        ensures
            final(self).queue@.len() == 0,
            final(self).queue_index == 0,
            final(self).shuffle_order@.len() == 0,
            final(self).shuffle == old(self).shuffle,
            final(self).loop_mode == old(self).loop_mode,
            final(self).well_formed(),
    {
        self.queue.clear();
        self.queue_index = 0;
        self.shuffle_order.clear();
    }

    /// Turns shuffle on or off; turning it on over a non-empty queue draws a
    /// new order that starts at the current track.
    pub fn toggle_shuffle(&mut self)
        ensures
            final(self).shuffle == !old(self).shuffle,
            final(self).queue@ == old(self).queue@,
            final(self).loop_mode == old(self).loop_mode,
            final(self).queue_index == old(self).queue_index,
            final(self).shuffle && old(self).queue@.len() > 0 ==> is_order_of(
                final(self).shuffle_order@,
                old(self).queue@.len(),
            ) && (old(
                self,
            ).queue_index < old(self).queue@.len() ==> final(self).shuffle_order@[0] == old(
                self,
            ).queue_index),
            !(final(self).shuffle && old(self).queue@.len() > 0) ==> final(self).shuffle_order@
                == old(self).shuffle_order@,
            old(self).well_formed() ==> final(self).well_formed(),
    {
        self.shuffle = !self.shuffle;
        if self.shuffle && self.queue.len() > 0 {
            self.regenerate_shuffle_order();
        }
    }

    /// Starts playing from a track list, at the entry under `cursor` (the
    /// last entry when the cursor is past the end): an empty queue becomes
    /// the list; otherwise the track joins the queue unless a track with its
    /// path is queued already, and the queue moves to the first queued track
    /// with that path.  Nothing happens for an empty list.
    pub fn select_from(&mut self, list: Vec<Track>, cursor: usize) -> (step: Step)
        ensures
            final(self).shuffle == old(self).shuffle,
            final(self).loop_mode == old(self).loop_mode,
            list@.len() == 0 ==> step == Step::Stay && final(self).queue@ == old(self).queue@
                && final(self).queue_index == old(self).queue_index,
            list@.len() > 0 ==> step == Step::Play(final(self).queue_index),
            ({
                let idx = if cursor < list@.len() { cursor as int } else { list@.len() - 1 };
                list@.len() > 0 && old(self).queue@.len() == 0 ==> final(self).queue@ == list@
                    && final(self).queue_index == idx && (old(self).shuffle ==> is_order_of(
                    final(self).shuffle_order@,
                    list@.len(),
                ) && final(self).shuffle_order@[0] == idx)
            }),
            ({
                let idx = if cursor < list@.len() { cursor as int } else { list@.len() - 1 };
                let p = list@[idx].path@;
                list@.len() > 0 && old(self).queue@.len() > 0 ==> final(self).shuffle_order@ == old(
                    self,
                ).shuffle_order@ && final(self).queue@ == (if has_path(old(self).queue@, p) {
                    old(self).queue@
                } else {
                    old(self).queue@.push(list@[idx])
                }) && final(self).queue_index == first_with_path(final(self).queue@, p)
            }),
    {
        let n = list.len();
        if n == 0 {
            return Step::Stay;
        }
        let idx = if cursor < n {
            cursor
        } else {
            n - 1
        };
        if self.queue.len() == 0 {
            self.set_queue(list, idx);
            return Step::Play(self.queue_index);
        }
        let mut list = list;
        let track = list.remove(idx);
        let ghost p = track.path@;
        let mut i: usize = 0;
        while i < self.queue.len() && !crate::text::str_eq(
            self.queue[i].path.as_str(),
            track.path.as_str(),
        )
            invariant
                i <= self.queue@.len(),
                p == track.path@,
                forall|j: int| 0 <= j < i ==> self.queue@[j].path@ != p,
            decreases self.queue@.len() - i,
        {
            i = i + 1;
        }
        let found = i < self.queue.len();
        proof {
            lemma_first_with_path(self.queue@, p, i as int, found);
        }
        if !found {
            let ghost q = self.queue@;
            let ghost t = track;
            self.queue.push(track);
            proof {
                lemma_first_with_path_push(q, p, t);
            }
        }
        self.queue_index = i;
        Step::Play(i)
    }

    /// Cycles the repeat mode: off → all → one → off.
    pub fn toggle_loop(&mut self)
        ensures
            final(self).loop_mode == old(self).loop_mode.successor(),
            final(self).queue@ == old(self).queue@,
            final(self).queue_index == old(self).queue_index,
            final(self).shuffle == old(self).shuffle,
            final(self).shuffle_order@ == old(self).shuffle_order@,
            old(self).well_formed() ==> final(self).well_formed(),
    {
        self.loop_mode = self.loop_mode.next();
    }
}

proof fn lemma_first_occurrence(order: Seq<usize>, x: usize, p: int)
    requires
        0 <= p < order.len(),
        order[p] == x,
    ensures
        exists|m: int|
            0 <= m < order.len() && order[m] == x && forall|q: int| 0 <= q < m ==> order[q] != x,
    decreases p,
{
    if exists|q: int| 0 <= q < p && order[q] == x {
        let q = choose|q: int| 0 <= q < p && order[q] == x;
        lemma_first_occurrence(order, x, q);
    } else {
        assert(forall|q: int| 0 <= q < p ==> order[q] != x);
    }
}

proof fn lemma_position_in_bounds(order: Seq<usize>, x: usize)
    ensures
        order.len() > 0 ==> 0 <= position_in(order, x) < order.len(),
        0 <= position_in(order, x),
        (exists|p: int| 0 <= p < order.len() && order[p] == x) ==> order[position_in(order, x)]
            == x,
{
    if exists|p: int| 0 <= p < order.len() && order[p] == x {
        let p = choose|p: int| 0 <= p < order.len() && order[p] == x;
        lemma_first_occurrence(order, x, p);
    }
}

/// From a well-formed queue, the next and previous positions are positions
/// of the queue.
pub proof fn lemma_positions_in_queue(q: PlayQueue)
    requires
        q.well_formed(),
    ensures
        q.next_position() matches Some(i) ==> i < q.queue@.len(),
        q.queue@.len() > 0 ==> q.prev_position() < q.queue@.len(),
{
    lemma_position_in_bounds(q.shuffle_order@, q.queue_index);
}

/// Previous from the start of the playing order: with the current track
/// first in the shuffle order (or first in the queue without shuffle),
/// repeat-off and repeat-one stay on the current track, and only
/// repeat-all wraps around to the last track of the order.
pub proof fn lemma_prev_at_start(q: PlayQueue)
    requires
        0 < q.queue@.len() <= usize::MAX,
        q.shuffling() ==> q.shuffle_order@[0] == q.queue_index,
        !q.shuffling() ==> q.queue_index == 0,
    ensures
        q.loop_mode != LoopMode::All ==> q.prev_position() == q.queue_index,
        q.loop_mode == LoopMode::All && q.shuffling() ==> q.prev_position() == q.shuffle_order@.last(),
        q.loop_mode == LoopMode::All && !q.shuffling() ==> q.prev_position() == q.queue@.len() - 1,
{
    let order = q.shuffle_order@;
    if q.shuffling() {
        assert(order[0] == q.queue_index);
        lemma_position_in_bounds(order, q.queue_index);
        let p = position_in(order, q.queue_index);
        assert(exists|k: int| 0 <= k < order.len() && order[k] == q.queue_index);
        assert(forall|k: int| 0 <= k < p ==> order[k] != q.queue_index);
        assert(p == 0);
    }
}

/// Next from the end of the playing order: with the current track last in
/// the shuffle order (which holds it once) or last in the queue, playback
/// ends under repeat-off, and repeat-all wraps around to the first track of
/// the order.
pub proof fn lemma_next_at_end(q: PlayQueue)
    requires
        0 < q.queue@.len() <= usize::MAX,
        q.loop_mode != LoopMode::One,
        q.shuffling() ==> q.shuffle_order@.last() == q.queue_index && q.shuffle_order@.no_duplicates(),
        !q.shuffling() ==> q.queue_index == q.queue@.len() - 1,
    ensures
        q.loop_mode == LoopMode::Off ==> q.next_position() is None,
        q.loop_mode == LoopMode::All && q.shuffling() ==> q.next_position() == Some(q.shuffle_order@[0]),
        q.loop_mode == LoopMode::All && !q.shuffling() ==> q.next_position() == Some(0usize),
{
    let order = q.shuffle_order@;
    if q.shuffling() {
        let n = order.len();
        assert(order[n - 1] == q.queue_index);
        lemma_position_in_bounds(order, q.queue_index);
        let p = position_in(order, q.queue_index);
        assert(exists|k: int| 0 <= k < order.len() && order[k] == q.queue_index);
        assert(order[p] == q.queue_index);
        assert(p == n - 1);
    }
}

/// Going back after going forward returns to the track that was playing:
/// `prev` undoes `next`, also across the wrap-around under repeat-all and in
/// a shuffle order that holds the current position once.
pub proof fn lemma_prev_undoes_next(q: PlayQueue, r: PlayQueue)
    requires
        q.well_formed(),
        q.queue_index < q.queue@.len() <= usize::MAX,
        q.loop_mode != LoopMode::One,
        q.shuffling() ==> q.shuffle_order@.no_duplicates() && q.shuffle_order@.contains(
            q.queue_index,
        ),
        q.next_position() is Some,
        r.queue@ == q.queue@,
        r.shuffle == q.shuffle,
        r.loop_mode == q.loop_mode,
        r.shuffle_order@ == q.shuffle_order@,
        r.queue_index == q.next_position()->0,
    ensures
        r.prev_position() == q.queue_index,
{
    let order = q.shuffle_order@;
    if q.shuffling() {
        let p = position_in(order, q.queue_index);
        assert(exists|k: int| 0 <= k < order.len() && order[k] == q.queue_index) by {
            let k = choose|k: int| 0 <= k < order.len() && order[k] == q.queue_index;
            assert(order[k] == q.queue_index);
        }
        lemma_position_in_bounds(order, q.queue_index);
        assert(order[p] == q.queue_index);
        let j = r.queue_index;
        if p + 1 < order.len() {
            assert(order[p + 1] == j);
            lemma_position_in_bounds(order, j);
            let pj = position_in(order, j);
            assert(order[pj] == j);
            assert(pj == p + 1);
            assert(r.shuffling());
            assert(r.prev_position() == order[p]);
        } else {
            assert(order[0] == j);
            lemma_position_in_bounds(order, j);
            let pj = position_in(order, j);
            assert(order[pj] == j);
            assert(pj == 0);
            assert(order.last() == order[p]);
            assert(r.prev_position() == order[p]);
        }
    } else {
        assert(!r.shuffling());
        if q.queue_index + 1 < q.queue@.len() {
            assert(r.queue_index == q.queue_index + 1);
        } else {
            assert(r.queue_index == 0);
            assert(r.prev_position() == q.queue_index);
        }
    }
}

/// Some track of the queue has path `p`.
pub open spec fn has_path(q: Seq<Track>, p: Seq<char>) -> bool {
    exists|j: int| 0 <= j < q.len() && (#[trigger] q[j]).path@ == p
}

/// The position of the first track with path `p` (the length when none).
pub open spec fn first_with_path(q: Seq<Track>, p: Seq<char>) -> int
    decreases q.len(),
{
    if q.len() == 0 {
        0
    } else if q[0].path@ == p {
        0
    } else {
        1 + first_with_path(q.drop_first(), p)
    }
}

proof fn lemma_first_with_path_at(q: Seq<Track>, p: Seq<char>, i: int)
    requires
        0 <= i <= q.len(),
        forall|j: int| 0 <= j < i ==> (#[trigger] q[j]).path@ != p,
        i < q.len() ==> q[i].path@ == p,
    ensures
        first_with_path(q, p) == i,
    decreases q.len(),
{
    if q.len() > 0 && i > 0 {
        assert(q[0].path@ != p);
        assert forall|j: int| 0 <= j < i - 1 implies (#[trigger] q.drop_first()[j]).path@ != p by {
            assert(q.drop_first()[j] == q[j + 1]);
        }
        if i < q.len() {
            assert(q.drop_first()[i - 1] == q[i]);
        }
        lemma_first_with_path_at(q.drop_first(), p, i - 1);
    }
}

proof fn lemma_first_with_path(q: Seq<Track>, p: Seq<char>, i: int, found: bool)
    requires
        0 <= i <= q.len(),
        forall|j: int| 0 <= j < i ==> (#[trigger] q[j]).path@ != p,
        found ==> i < q.len() && q[i].path@ == p,
        !found ==> i == q.len(),
    ensures
        first_with_path(q, p) == i,
        has_path(q, p) == found,
{
    lemma_first_with_path_at(q, p, i);
    if found {
        assert(q[i].path@ == p);
    }
}

proof fn lemma_first_with_path_push(q: Seq<Track>, p: Seq<char>, t: Track)
    requires
        !has_path(q, p),
        t.path@ == p,
    ensures
        first_with_path(q.push(t), p) == q.len(),
{
    let r = q.push(t);
    assert forall|j: int| 0 <= j < q.len() implies (#[trigger] r[j]).path@ != p by {
        assert(r[j] == q[j]);
        if q[j].path@ == p {
            assert(has_path(q, p));
        }
    }
    lemma_first_with_path_at(r, p, q.len() as int);
}

proof fn lemma_swap_multiset(s: Seq<usize>, i: int, j: int)
    requires
        0 <= i < s.len(),
        0 <= j < s.len(),
    ensures
        s.update(i, s[j]).update(j, s[i]).to_multiset() == s.to_multiset(),
{
    broadcast use vstd::seq_lib::group_to_multiset_ensures;
    broadcast use vstd::multiset::group_multiset_axioms;

    if i != j {
        let t = s.update(i, s[j]);
        assert(t.to_multiset() == s.to_multiset().insert(s[j]).remove(s[i]));
        assert(t[j] == s[j]);
        assert(t.update(j, s[i]).to_multiset() == t.to_multiset().insert(s[i]).remove(s[j]));
        assert(t.update(j, s[i]).to_multiset() =~= s.to_multiset());
    } else {
        assert(s.update(i, s[j]).update(j, s[i]) =~= s);
    }
}

} // verus!
