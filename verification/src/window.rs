//! The sliding window accumulator: the most recent iterations' samples as
//! one contiguous window, with per-iteration sample counts kept in a ring so
//! that eviction always removes exactly the count recorded a fixed number of
//! iterations ago.

use crate::config::MAX_WINDOW_DEPTH;
use crate::rings::{
    count_ring_capacity, count_ring_contents, sample_ring_capacity, sample_ring_contents,
    CountRing, SampleRing,
};
use vstd::prelude::*;

verus! {

/// Sum of a sequence of per-iteration sample counts.
pub open spec fn sum_counts(s: Seq<usize>) -> int
    decreases s.len(),
{
    if s.len() == 0 {
        0
    } else {
        sum_counts(s.drop_last()) + s.last()
    }
}

pub proof fn lemma_sum_nonneg(s: Seq<usize>)
    ensures
        0 <= sum_counts(s),
    decreases s.len(),
{
    if s.len() > 0 {
        lemma_sum_nonneg(s.drop_last());
    }
}

pub proof fn lemma_sum_push(s: Seq<usize>, x: usize)
    ensures
        sum_counts(s.push(x)) == sum_counts(s) + x,
{
    assert(s.push(x).drop_last() =~= s);
    assert(s.push(x).last() == x);
}

pub proof fn lemma_sum_drop_first(s: Seq<usize>)
    requires
        s.len() > 0,
    ensures
        sum_counts(s) == s[0] + sum_counts(s.drop_first()),
    decreases s.len(),
{
    if s.len() == 1 {
        assert(s.drop_first() =~= Seq::<usize>::empty());
        assert(s.drop_last() =~= Seq::<usize>::empty());
    } else {
        lemma_sum_drop_first(s.drop_last());
        assert(s.drop_first().drop_last() =~= s.drop_last().drop_first());
        assert(s.drop_first().last() == s.last());
    }
}

/// The oldest retained count never exceeds the whole window's length.
pub proof fn lemma_first_le_sum(s: Seq<usize>)
    requires
        s.len() > 0,
    ensures
        s[0] <= sum_counts(s),
{
    lemma_sum_drop_first(s);
    lemma_sum_nonneg(s.drop_first());
}

/// The counts the ring holds after the recorded history `h`: the last `k`
/// entries of `k` zeros followed by `h`. The zeros are the pre-fill that
/// makes the first `k - 1` iterations evict nothing.
pub open spec fn retained_counts(h: Seq<usize>, k: int) -> Seq<usize> {
    if h.len() >= k {
        h.skip(h.len() - k)
    } else {
        Seq::new((k - h.len()) as nat, |i: int| 0usize) + h
    }
}

pub proof fn lemma_retained_push(h: Seq<usize>, k: int, a: usize)
    requires
        k >= 1,
    ensures
        retained_counts(h.push(a), k) =~= retained_counts(h, k).drop_first().push(a),
{
    if h.len() + 1 >= k {
        assert(h.push(a).len() == h.len() + 1);
        assert forall|i: int| 0 <= i < k implies retained_counts(h.push(a), k)[i]
            == retained_counts(h, k).drop_first().push(a)[i] by {
            assert(retained_counts(h.push(a), k)[i] == h.push(a)[h.len() + 1 - k + i]);
        }
    } else {
        assert forall|i: int| 0 <= i < k implies retained_counts(h.push(a), k)[i]
            == retained_counts(h, k).drop_first().push(a)[i] by {
        }
    }
}

/// Holds the most recent iterations' samples as one contiguous window.
/// Advancing it records the new iteration's sample count, evicts exactly the
/// count recorded `depth` iterations ago from the front, and appends the new
/// samples at the back.
pub struct SlidingWindow {
    /// How many iterations' counts the ring retains (the configured K).
    pub depth: usize,
    /// Sample capacity of the window buffer.
    pub capacity: usize,
    /// Ring of the last `depth` recorded per-iteration sample counts.
    pub counts: CountRing,
    /// Contiguous buffer of the retained samples.
    pub samples: SampleRing,
    /// Every recorded per-iteration sample count since the start, in order.
    pub history: Ghost<Seq<usize>>,
}

impl SlidingWindow {
    /// The retained per-iteration sample counts, oldest first.
    pub open spec fn counts_view(self) -> Seq<usize> {
        count_ring_contents(self.counts)
    }

    /// The retained samples, oldest first.
    pub open spec fn window_view(self) -> Seq<u32> {
        sample_ring_contents(self.samples)
    }

    /// The window invariant: the count ring is always full (pre-filled with
    /// zeros), the retained counts are exactly the most recent entries of
    /// the recorded history, and their sum equals the window's length.
    pub open spec fn wf(self) -> bool {
        &&& 1 <= self.depth <= MAX_WINDOW_DEPTH
        &&& 1 <= self.capacity
        &&& count_ring_capacity(self.counts) == self.depth as nat
        &&& sample_ring_capacity(self.samples) == self.capacity as nat
        &&& self.counts_view().len() == self.depth
        &&& self.window_view().len() <= self.capacity
        &&& sum_counts(self.counts_view()) == self.window_view().len()
        &&& self.counts_view() == retained_counts(self.history@, self.depth as int)
    }

    /// Makes an empty window: no samples, and `depth` recorded counts of
    /// zero, so that the first `depth - 1` iterations evict nothing.
    pub fn new(depth: usize, capacity: usize) -> (r: SlidingWindow)
        requires
            1 <= depth <= MAX_WINDOW_DEPTH,
            1 <= capacity,
        ensures
            r.wf(),
            r.depth == depth,
            r.capacity == capacity,
            r.history@ == Seq::<usize>::empty(),
            r.window_view() == Seq::<u32>::empty(),
    {
        let mut counts = CountRing::with_capacity(depth);
        let mut i: usize = 0;
        assert(count_ring_contents(counts) =~= Seq::new(0nat, |j: int| 0usize));
        while i < depth
            invariant
                i <= depth,
                count_ring_capacity(counts) == depth as nat,
                count_ring_contents(counts) == Seq::new(i as nat, |j: int| 0usize),
            decreases depth - i,
        {
            let _ = counts.push_back(0);
            i = i + 1;
            proof {
                assert(count_ring_contents(counts) =~= Seq::new(i as nat, |j: int| 0usize));
            }
        }
        let samples = SampleRing::with_capacity(capacity);
        let r = SlidingWindow { depth, capacity, counts, samples, history: Ghost(Seq::empty()) };
        proof {
            lemma_sum_zeros(r.counts_view());
            assert(r.counts_view() =~= retained_counts(r.history@, r.depth as int));
        }
        r
    }

    /// One iteration's move: records how many of the new samples were
    /// accepted, evicts from the front exactly the count recorded `depth`
    /// iterations ago (zero while the window is still warming up), and
    /// appends the accepted new samples at the back. New samples beyond the
    /// remaining capacity are dropped.
    pub fn advance(&mut self, new_samples: &Vec<u32>) -> (evicted: usize)
        requires
            old(self).wf(),
        ensures
            ({
                let accepted: int = {
                    let room = old(self).capacity - (old(self).window_view().len() - evicted);
                    if new_samples@.len() <= room {
                        new_samples@.len() as int
                    } else {
                        room
                    }
                };
                &&& final(self).wf()
                &&& final(self).depth == old(self).depth
                &&& final(self).capacity == old(self).capacity
                &&& evicted == old(self).counts_view()[0]
                &&& evicted as int == (if old(self).history@.len() < old(self).depth {
                    0
                } else {
                    old(self).history@[old(self).history@.len() - old(self).depth] as int
                })
                &&& final(self).history@ == old(self).history@.push(accepted as usize)
                &&& final(self).counts_view() == old(self).counts_view().drop_first().push(
                    accepted as usize,
                )
                &&& final(self).window_view() == old(self).window_view().skip(evicted as int)
                    + new_samples@.take(accepted)
                &&& sum_counts(final(self).counts_view()) == final(self).window_view().len()
            }),
    {
        let evicted = self.counts.front().unwrap();
        proof {
            lemma_first_le_sum(old(self).counts_view());
        }
        let mut i: usize = 0;
        while i < evicted
            invariant
                i <= evicted,
                evicted as int <= old(self).window_view().len(),
                self.depth == old(self).depth,
                self.capacity == old(self).capacity,
                self.counts == old(self).counts,
                self.history == old(self).history,
                sample_ring_capacity(self.samples) == old(self).capacity as nat,
                sample_ring_contents(self.samples) == old(self).window_view().skip(i as int),
            decreases evicted - i,
        {
            let _ = self.samples.pop_front();
            i = i + 1;
            proof {
                assert(old(self).window_view().skip(i - 1).drop_first() =~= old(
                    self,
                ).window_view().skip(i as int));
            }
        }
        let before = self.samples.len();
        self.samples.push_from(new_samples);
        let after = self.samples.len();
        let accepted = after - before;
        let recorded = self.counts.push_overwrite(accepted);
        proof {
            assert(recorded == Some(evicted));
        }
        self.history = Ghost(self.history@.push(accepted));
        proof {
            lemma_sum_drop_first(old(self).counts_view());
            lemma_sum_nonneg(old(self).counts_view().drop_first());
            lemma_sum_push(old(self).counts_view().drop_first(), accepted);
            lemma_retained_push(old(self).history@, self.depth as int, accepted);
            assert(final(self).counts_view() =~= retained_counts(
                final(self).history@,
                self.depth as int,
            ));
        }
        evicted
    }

    /// The full current window contents as one contiguous sequence.
    pub fn window_to_vec(&self) -> (r: Vec<u32>)
        ensures
            r@ == self.window_view(),
    {
        self.samples.to_vec()
    }

    /// The number of retained samples.
    pub fn window_len(&self) -> (r: usize)
        ensures
            r as nat == self.window_view().len(),
    {
        self.samples.len()
    }
}

pub proof fn lemma_sum_zeros(s: Seq<usize>)
    requires
        forall|i: int| 0 <= i < s.len() ==> s[i] == 0usize,
    ensures
        sum_counts(s) == 0,
    decreases s.len(),
{
    if s.len() > 0 {
        lemma_sum_zeros(s.drop_last());
    }
}

} // verus!
