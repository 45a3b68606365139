//! The transcript assembler: an append-mostly character sequence, mutated
//! only by retract-then-append at each iteration boundary.

use vstd::prelude::*;

verus! {

/// What retracting `n` characters leaves of a transcript: the last `n`
/// characters removed; everything when `n` exceeds the length (the count is
/// clamped, never an underflow).
pub open spec fn retract_spec(s: Seq<char>, n: int) -> Seq<char> {
    if n <= s.len() {
        s.take(s.len() - n)
    } else {
        Seq::<char>::empty()
    }
}

/// Everything recognized so far. No writer exists besides the
/// retract-then-append of the iteration boundary.
pub struct Transcript {
    chars: Vec<char>,
}

impl View for Transcript {
    type V = Seq<char>;

    closed spec fn view(&self) -> Seq<char> {
        self.chars@
    }
}

impl Transcript {
    /// An empty transcript.
    pub fn new() -> (r: Transcript)
        ensures
            r@ == Seq::<char>::empty(),
    {
        Transcript { chars: Vec::new() }
    }

    /// The current length, in characters.
    pub fn len(&self) -> (r: usize)
        ensures
            r as int == self@.len(),
    {
        self.chars.len()
    }

    /// Removes the last `n` characters; all of them when `n` exceeds the
    /// current length.
    pub fn retract(&mut self, n: usize)
        ensures
            final(self)@ == retract_spec(old(self)@, n as int),
    {
        let keep: usize = if n <= self.chars.len() {
            self.chars.len() - n
        } else {
            0
        };
        self.chars.truncate(keep);
        proof {
            assert(self@ =~= retract_spec(old(self)@, n as int));
        }
    }

    /// Appends the given characters at the end.
    pub fn append(&mut self, more: &Vec<char>)
        requires
            old(self)@.len() + more@.len() <= usize::MAX,
        ensures
            final(self)@ == old(self)@ + more@,
    {
        self.chars.extend_from_slice(more.as_slice());
        proof {
            assert(self@ =~= old(self)@ + more@);
        }
    }

    /// The whole transcript as a character vector.
    pub fn chars_vec(&self) -> (r: Vec<char>)
        ensures
            r@ == self@,
    {
        let mut out: Vec<char> = Vec::new();
        let n: usize = self.chars.len();
        for i in 0..n
            invariant
                n == self.chars@.len(),
                out@ == self.chars@.take(i as int),
        {
            out.push(self.chars[i]);
            proof {
                assert(out@ =~= self.chars@.take(i + 1));
            }
        }
        proof {
            assert(self.chars@.take(n as int) =~= self.chars@);
        }
        out
    }
}

} // verus!
