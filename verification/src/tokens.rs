//! Engine output tokens, as plain values: identifier, rendered text, and
//! start/end times in model time units.

use crate::config::{MAX_MODEL_TIME, MAX_TOKENS, MAX_TOKEN_TEXT};
use vstd::prelude::*;

verus! {

/// One token of an engine answer. The first and last token of an answer are
/// engine-reserved boundary markers and contribute no transcript text.
pub struct Token {
    /// Engine token identifier.
    pub id: i32,
    /// Rendered text of the token.
    pub text: Vec<char>,
    /// Start time, in model time units.
    pub t0: i64,
    /// End time, in model time units.
    pub t1: i64,
}

/// A token whose times and text are within the accepted bounds.
pub open spec fn token_wf(t: Token) -> bool {
    &&& 0 <= t.t0 <= MAX_MODEL_TIME
    &&& 0 <= t.t1 <= MAX_MODEL_TIME
    &&& t.text@.len() <= MAX_TOKEN_TEXT
}

/// A bounded engine answer of well-formed tokens.
pub open spec fn tokens_wf(ts: Seq<Token>) -> bool {
    &&& ts.len() <= MAX_TOKENS
    &&& forall|i: int| 0 <= i < ts.len() ==> token_wf(#[trigger] ts[i])
}

/// The concatenated rendered text of a token sequence, in order.
pub open spec fn concat_text(ts: Seq<Token>) -> Seq<char>
    decreases ts.len(),
{
    if ts.len() == 0 {
        Seq::<char>::empty()
    } else {
        concat_text(ts.drop_last()) + ts.last().text@
    }
}

/// The text an engine answer contributes to the transcript: the rendered
/// text of every token except the first and the last; empty when the answer
/// holds no more than the two boundary markers.
pub open spec fn middle_text(ts: Seq<Token>) -> Seq<char> {
    if ts.len() <= 2 {
        Seq::<char>::empty()
    } else {
        concat_text(ts.subrange(1, ts.len() - 1))
    }
}

/// Concatenates the rendered text of all tokens except the first and the
/// last of an engine answer.
pub fn middle_text_of(tokens: &Vec<Token>) -> (r: Vec<char>)
    ensures
        r@ == middle_text(tokens@),
{
    let mut out: Vec<char> = Vec::new();
    if tokens.len() <= 2 {
        assert(out@ =~= middle_text(tokens@));
        return out;
    }
    let n: usize = tokens.len();
    assert(out@ =~= concat_text(tokens@.subrange(1, 1)));
    for i in 1..(n - 1)
        invariant
            n == tokens@.len(),
            2 < n,
            out@ == concat_text(tokens@.subrange(1, i as int)),
    {
        out.extend_from_slice(tokens[i].text.as_slice());
        proof {
            assert(tokens@.subrange(1, i + 1).drop_last() =~= tokens@.subrange(1, i as int));
            assert(tokens@.subrange(1, i + 1).last() == tokens@[i as int]);
        }
    }
    assert(tokens@.subrange(1, (n - 1) as int) =~= tokens@.subrange(1, n as int - 1));
    out
}

} // verus!
