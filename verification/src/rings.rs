//! Bounded FIFO rings, the window/carry storage of the engine.
//!
//! Each ring is held in a `ringbuf::LocalRb` and exposed to verified code
//! through a small trusted surface: an opaque struct, an uninterpreted name
//! for its contents (oldest first) and one for the capacity it was created
//! with, and one wrapper per ring-buffer method the logic calls.

use ringbuf::{LocalRb, Rb};
use std::mem::MaybeUninit;
use vstd::prelude::*;

verus! {

/// A bounded FIFO ring of audio samples, stored as `f32` bit patterns.
#[verifier::external_body]
pub struct SampleRing {
    rb: LocalRb<u32, Vec<MaybeUninit<u32>>>,
}

/// The samples a [`SampleRing`] holds, oldest first.
pub uninterp spec fn sample_ring_contents(r: SampleRing) -> Seq<u32>;

/// The capacity a [`SampleRing`] was created with.
pub uninterp spec fn sample_ring_capacity(r: SampleRing) -> nat;

impl SampleRing {
    /// Relies on `ringbuf::LocalRb::new`: makes an empty ring of the given
    /// capacity (it panics on capacity zero, so that is required away).
    #[verifier::external_body]
    pub fn with_capacity(capacity: usize) -> (r: SampleRing)
        requires
            1 <= capacity,
        ensures
            sample_ring_contents(r) == Seq::<u32>::empty(),
            sample_ring_capacity(r) == capacity as nat,
    {
        SampleRing { rb: LocalRb::new(capacity) }
    }

    /// Relies on `ringbuf::Rb::len`: the number of stored items.
    #[verifier::external_body]
    pub fn len(&self) -> (r: usize)
        ensures
            r as nat == sample_ring_contents(*self).len(),
    {
        self.rb.len()
    }

    /// Relies on `ringbuf::Rb::pop` (through `Consumer::pop`): removes and
    /// returns the oldest item; `None` when the ring is empty.
    #[verifier::external_body]
    pub fn pop_front(&mut self) -> (r: Option<u32>)
        ensures
            sample_ring_capacity(*final(self)) == sample_ring_capacity(*old(self)),
            sample_ring_contents(*old(self)).len() == 0 ==> r is None
                && sample_ring_contents(*final(self)) == sample_ring_contents(*old(self)),
            sample_ring_contents(*old(self)).len() > 0 ==> r == Some(
                sample_ring_contents(*old(self))[0],
            ) && sample_ring_contents(*final(self)) == sample_ring_contents(
                *old(self),
            ).drop_first(),
    {
        self.rb.pop()
    }

    /// Relies on `ringbuf::Rb::push_iter` (through `Producer::push_iter`):
    /// appends items in order until the ring is full; the items that did not
    /// fit are dropped.
    #[verifier::external_body]
    pub fn push_from(&mut self, xs: &Vec<u32>)
        ensures
            sample_ring_capacity(*final(self)) == sample_ring_capacity(*old(self)),
            sample_ring_contents(*final(self)) == sample_ring_contents(*old(self)) + xs@.take(
                ({
                    let room = sample_ring_capacity(*old(self)) - sample_ring_contents(
                        *old(self),
                    ).len();
                    if xs@.len() <= room {
                        xs@.len() as int
                    } else {
                        room as int
                    }
                }),
            ),
    {
        self.rb.push_iter(&mut xs.iter().copied());
    }

    /// Relies on `ringbuf::Rb::as_slices`: the two slices hold, in order,
    /// the ring's contents, oldest first.
    #[verifier::external_body]
    pub fn to_vec(&self) -> (r: Vec<u32>)
        ensures
            r@ == sample_ring_contents(*self),
    {
        let (head, tail) = self.rb.as_slices();
        [head, tail].concat()
    }
}

/// A bounded FIFO ring of per-iteration sample counts.
#[verifier::external_body]
pub struct CountRing {
    rb: LocalRb<usize, Vec<MaybeUninit<usize>>>,
}

/// The counts a [`CountRing`] holds, oldest first.
pub uninterp spec fn count_ring_contents(r: CountRing) -> Seq<usize>;

/// The capacity a [`CountRing`] was created with.
pub uninterp spec fn count_ring_capacity(r: CountRing) -> nat;

impl CountRing {
    /// Relies on `ringbuf::LocalRb::new`: makes an empty ring of the given
    /// capacity (it panics on capacity zero, so that is required away).
    #[verifier::external_body]
    pub fn with_capacity(capacity: usize) -> (r: CountRing)
        requires
            1 <= capacity,
        ensures
            count_ring_contents(r) == Seq::<usize>::empty(),
            count_ring_capacity(r) == capacity as nat,
    {
        CountRing { rb: LocalRb::new(capacity) }
    }

    /// Relies on `ringbuf::Rb::iter`: a front-to-back iterator over the
    /// ring, whose first item is the oldest.
    #[verifier::external_body]
    pub fn front(&self) -> (r: Option<usize>)
        ensures
            count_ring_contents(*self).len() == 0 ==> r is None,
            count_ring_contents(*self).len() > 0 ==> r == Some(count_ring_contents(*self)[0]),
    {
        self.rb.iter().next().copied()
    }

    /// Relies on `ringbuf::Rb::push` (through `Producer::push`): appends the
    /// item and returns `Ok` exactly when the ring was not full.
    #[verifier::external_body]
    pub fn push_back(&mut self, x: usize) -> (r: bool)
        ensures
            count_ring_capacity(*final(self)) == count_ring_capacity(*old(self)),
            r == (count_ring_contents(*old(self)).len() < count_ring_capacity(*old(self))),
            r ==> count_ring_contents(*final(self)) == count_ring_contents(*old(self)).push(x),
            !r ==> count_ring_contents(*final(self)) == count_ring_contents(*old(self)),
    {
        self.rb.push(x).is_ok()
    }

    /// Relies on `ringbuf::Rb::push_overwrite`: when the ring is full it
    /// pops the oldest item and returns it, then appends the new one.
    #[verifier::external_body]
    pub fn push_overwrite(&mut self, x: usize) -> (r: Option<usize>)
        ensures
            count_ring_capacity(*final(self)) == count_ring_capacity(*old(self)),
            count_ring_contents(*old(self)).len() < count_ring_capacity(*old(self)) ==> r is None
                && count_ring_contents(*final(self)) == count_ring_contents(*old(self)).push(x),
            count_ring_contents(*old(self)).len() >= count_ring_capacity(*old(self)) ==> r
                == Some(count_ring_contents(*old(self))[0]) && count_ring_contents(*final(self))
                == count_ring_contents(*old(self)).drop_first().push(x),
    {
        self.rb.push_overwrite(x)
    }
}

/// A bounded FIFO ring of carry-token id lists, one list per iteration.
#[verifier::external_body]
pub struct TokenRing {
    rb: LocalRb<Vec<i32>, Vec<MaybeUninit<Vec<i32>>>>,
}

/// The id lists a [`TokenRing`] holds, oldest first.
pub uninterp spec fn token_ring_contents(r: TokenRing) -> Seq<Seq<i32>>;

/// The capacity a [`TokenRing`] was created with.
pub uninterp spec fn token_ring_capacity(r: TokenRing) -> nat;

impl TokenRing {
    /// Relies on `ringbuf::LocalRb::new`: makes an empty ring of the given
    /// capacity (it panics on capacity zero, so that is required away).
    #[verifier::external_body]
    pub fn with_capacity(capacity: usize) -> (r: TokenRing)
        requires
            1 <= capacity,
        ensures
            token_ring_contents(r) == Seq::<Seq<i32>>::empty(),
            token_ring_capacity(r) == capacity as nat,
    {
        TokenRing { rb: LocalRb::new(capacity) }
    }

    /// Relies on `ringbuf::Rb::push_overwrite`: when the ring is full it
    /// pops the oldest list and returns it, then appends the new one.
    #[verifier::external_body]
    pub fn push_overwrite(&mut self, xs: Vec<i32>) -> (r: Option<Vec<i32>>)
        ensures
            token_ring_capacity(*final(self)) == token_ring_capacity(*old(self)),
            token_ring_contents(*old(self)).len() < token_ring_capacity(*old(self)) ==> r is None
                && token_ring_contents(*final(self)) == token_ring_contents(*old(self)).push(xs@),
            token_ring_contents(*old(self)).len() >= token_ring_capacity(*old(self)) ==> (r
                matches Some(v) && v@ == token_ring_contents(*old(self))[0])
                && token_ring_contents(*final(self)) == token_ring_contents(
                *old(self),
            ).drop_first().push(xs@),
    {
        self.rb.push_overwrite(xs)
    }

    /// Relies on `ringbuf::Rb::as_slices`: the two slices hold, in order,
    /// the ring's contents, oldest first.
    #[verifier::external_body]
    pub fn to_lists(&self) -> (r: Vec<Vec<i32>>)
        ensures
            r@.len() == token_ring_contents(*self).len(),
            forall|i: int|
                0 <= i < r@.len() ==> r@[i]@ == token_ring_contents(*self)[i],
    {
        let (head, tail) = self.rb.as_slices();
        [head, tail].concat()
    }
}

} // verus!
