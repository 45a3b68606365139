//! The time-alignment reconciler: converts engine-reported token start
//! times back to elapsed-sample time, picks the carry candidates (tokens
//! whose audio is about to be evicted and must be replayed as context), and
//! computes how many previously displayed characters to retract.
//!
//! The engine reports times in model time units. Their ratio to
//! milliseconds is derived from the fact that the call was fed
//! `min(iteration, K)` iterations' worth of audio ending at `seg_end`:
//! `t0_ms = t0 * latency_ms * min(iteration, K) / seg_end`, and the span
//! about to be evicted is `ms_to_evict = evicted * 1000 / sample_rate`.
//! The comparison `t0_ms < ms_to_evict` is taken exactly, by
//! cross-multiplying with the positive denominators.

use crate::config::{StreamConfig, MAX_MODEL_TIME, MAX_TOKENS};
use crate::tokens::{middle_text, tokens_wf, Token};
use vstd::prelude::*;

verus! {

/// How many iterations' worth of audio the engine call of the given
/// iteration was fed: the iteration number, once warmed up the window depth.
pub open spec fn depth_used(iteration: int, k: int) -> int {
    if iteration <= k {
        iteration
    } else {
        k
    }
}

/// Whether a token starting at `t0` is a carry candidate: only once the
/// window has fully warmed up (`iteration > K`), and only when the token's
/// start, in milliseconds, lies strictly before the span about to be
/// evicted. `t0 * latency * min(iteration, K) / seg_end < evicted * 1000 /
/// rate`, cross-multiplied so it is exact.
pub open spec fn is_carry_spec(
    t0: int,
    seg_end: int,
    evicted: int,
    iteration: int,
    cfg: StreamConfig,
) -> bool {
    &&& iteration > cfg.window_depth
    &&& (t0 * cfg.latency_ms as int * depth_used(iteration, cfg.window_depth as int)
        * cfg.sample_rate as int) < evicted * 1000 * seg_end
}

/// The ids of the carry candidates among the given tokens, in order.
pub open spec fn carry_filter_ids(
    ts: Seq<Token>,
    seg_end: int,
    evicted: int,
    iteration: int,
    cfg: StreamConfig,
) -> Seq<i32>
    decreases ts.len(),
{
    if ts.len() == 0 {
        Seq::<i32>::empty()
    } else {
        carry_filter_ids(ts.drop_last(), seg_end, evicted, iteration, cfg) + (
        if is_carry_spec(ts.last().t0 as int, seg_end, evicted, iteration, cfg) {
            seq![ts.last().id]
        } else {
            Seq::<i32>::empty()
        })
    }
}

/// The total rendered-text length of the carry candidates among the given
/// tokens.
pub open spec fn carry_filter_len(
    ts: Seq<Token>,
    seg_end: int,
    evicted: int,
    iteration: int,
    cfg: StreamConfig,
) -> int
    decreases ts.len(),
{
    if ts.len() == 0 {
        0
    } else {
        carry_filter_len(ts.drop_last(), seg_end, evicted, iteration, cfg) + (
        if is_carry_spec(ts.last().t0 as int, seg_end, evicted, iteration, cfg) {
            ts.last().text@.len() as int
        } else {
            0
        })
    }
}

/// Whether the edge policy applies to an engine answer: a zero or negative
/// segment end, or no tokens besides the two boundary markers, is treated
/// as no tokens produced.
pub open spec fn degenerate_answer(ts: Seq<Token>, seg_end: int) -> bool {
    ts.len() <= 2 || seg_end <= 0
}

/// The carry-candidate ids of an engine answer: its middle tokens filtered
/// by [`is_carry_spec`]; none for a degenerate answer.
pub open spec fn carry_ids_spec(
    ts: Seq<Token>,
    seg_end: int,
    evicted: int,
    iteration: int,
    cfg: StreamConfig,
) -> Seq<i32> {
    if degenerate_answer(ts, seg_end) {
        Seq::<i32>::empty()
    } else {
        carry_filter_ids(ts.subrange(1, ts.len() - 1), seg_end, evicted, iteration, cfg)
    }
}

/// The total rendered-text length of an answer's carry candidates.
pub open spec fn carried_len_spec(
    ts: Seq<Token>,
    seg_end: int,
    evicted: int,
    iteration: int,
    cfg: StreamConfig,
) -> int {
    if degenerate_answer(ts, seg_end) {
        0
    } else {
        carry_filter_len(ts.subrange(1, ts.len() - 1), seg_end, evicted, iteration, cfg)
    }
}

/// How many characters of the previously displayed words to retract at the
/// given iteration, for the previous answer `ts`: none for a degenerate
/// answer; all of them while the window is still warming up (they are
/// re-emitted whole); once warmed up, the previous words minus the carried
/// text, clamped at zero.
pub open spec fn retract_count_spec(
    ts: Seq<Token>,
    seg_end: int,
    evicted: int,
    iteration: int,
    cfg: StreamConfig,
    prev_words_len: int,
) -> int {
    if degenerate_answer(ts, seg_end) {
        0
    } else if iteration <= cfg.window_depth {
        prev_words_len
    } else {
        let carried = carried_len_spec(ts, seg_end, evicted, iteration, cfg);
        if carried <= prev_words_len {
            prev_words_len - carried
        } else {
            0
        }
    }
}

/// Decides [`is_carry_spec`] exactly, in 128-bit arithmetic.
pub fn token_is_carry(
    t0: i64,
    seg_end: i64,
    evicted: usize,
    iteration: u64,
    cfg: &StreamConfig,
) -> (r: bool)
    requires
        cfg.wf(),
        0 <= t0 <= MAX_MODEL_TIME,
        0 <= seg_end <= MAX_MODEL_TIME,
    ensures
        r == is_carry_spec(t0 as int, seg_end as int, evicted as int, iteration as int, *cfg),
{
    if iteration <= cfg.window_depth as u64 {
        return false;
    }
    proof {
        assert(0 <= t0 as int * cfg.latency_ms as int <= 1099511627776 * 1048576)
            by (nonlinear_arith)
            requires
                0 <= t0 <= 1099511627776,
                1 <= cfg.latency_ms <= 1048576,
        ;
        assert(0 <= (t0 as int * cfg.latency_ms as int) * cfg.window_depth as int
            <= 1099511627776 * 1048576 * 1024)
            by (nonlinear_arith)
            requires
                0 <= t0 as int * cfg.latency_ms as int <= 1099511627776 * 1048576,
                1 <= cfg.window_depth <= 1024,
        ;
        assert(0 <= ((t0 as int * cfg.latency_ms as int) * cfg.window_depth as int)
            * cfg.sample_rate as int <= 1099511627776 * 1048576 * 1024 * 1048576)
            by (nonlinear_arith)
            requires
                0 <= (t0 as int * cfg.latency_ms as int) * cfg.window_depth as int
                    <= 1099511627776 * 1048576 * 1024,
                1 <= cfg.sample_rate <= 1048576,
        ;
        assert(0 <= (evicted as int * 1000) * seg_end as int
            <= 18446744073709551615000 * 1099511627776)
            by (nonlinear_arith)
            requires
                0 <= evicted as int * 1000 <= 18446744073709551615000,
                0 <= seg_end <= 1099511627776,
        ;
    }
    let lhs: i128 = ((t0 as i128) * (cfg.latency_ms as i128)) * (cfg.window_depth as i128) * (
    cfg.sample_rate as i128);
    let rhs: i128 = ((evicted as i128) * 1000) * (seg_end as i128);
    lhs < rhs
}

/// The result of reconciling one iteration against the previous answer.
pub struct Reconciliation {
    /// Ids of the previous answer's carry candidates, in order.
    pub carry_ids: Vec<i32>,
    /// Characters to retract from the displayed transcript.
    pub retract: usize,
}

/// Scans an answer's middle tokens for carry candidates, returning their
/// ids and their total rendered-text length.
pub fn carry_scan(
    tokens: &Vec<Token>,
    seg_end: i64,
    evicted: usize,
    iteration: u64,
    cfg: &StreamConfig,
) -> (r: (Vec<i32>, u64))
    requires
        cfg.wf(),
        tokens_wf(tokens@),
        0 <= seg_end <= MAX_MODEL_TIME,
    ensures
        r.0@ == carry_ids_spec(tokens@, seg_end as int, evicted as int, iteration as int, *cfg),
        r.1 as int == carried_len_spec(
            tokens@,
            seg_end as int,
            evicted as int,
            iteration as int,
            *cfg,
        ),
{
    let mut ids: Vec<i32> = Vec::new();
    let mut chars: u64 = 0;
    if tokens.len() <= 2 || seg_end <= 0 {
        return (ids, chars);
    }
    let n: usize = tokens.len();
    assert(ids@ =~= carry_filter_ids(
        tokens@.subrange(1, 1),
        seg_end as int,
        evicted as int,
        iteration as int,
        *cfg,
    ));
    for i in 1..(n - 1)
        invariant
            n == tokens@.len(),
            2 < n <= MAX_TOKENS,
            cfg.wf(),
            tokens_wf(tokens@),
            0 < seg_end <= MAX_MODEL_TIME,
            ids@ == carry_filter_ids(
                tokens@.subrange(1, i as int),
                seg_end as int,
                evicted as int,
                iteration as int,
                *cfg,
            ),
            chars as int == carry_filter_len(
                tokens@.subrange(1, i as int),
                seg_end as int,
                evicted as int,
                iteration as int,
                *cfg,
            ),
            chars <= (i - 1) as u64 * 4294967295,
    {
        let t = &tokens[i];
        if token_is_carry(t.t0, seg_end, evicted, iteration, cfg) {
            ids.push(t.id);
            chars = chars + (t.text.len() as u64);
        }
        proof {
            assert(tokens@.subrange(1, i + 1).drop_last() =~= tokens@.subrange(1, i as int));
            assert(tokens@.subrange(1, i + 1).last() == tokens@[i as int]);
        }
    }
    proof {
        assert(tokens@.subrange(1, (n - 1) as int) =~= tokens@.subrange(1, n as int - 1));
    }
    (ids, chars)
}

/// Reconciles one iteration against the previous engine answer: the carry
/// candidates to replay as context, and how many characters of the
/// previously displayed words to retract.
pub fn reconcile(
    prev_tokens: &Vec<Token>,
    prev_seg_end: i64,
    evicted: usize,
    iteration: u64,
    cfg: &StreamConfig,
    prev_words_len: usize,
) -> (r: Reconciliation)
    requires
        cfg.wf(),
        tokens_wf(prev_tokens@),
        0 <= prev_seg_end <= MAX_MODEL_TIME,
    ensures
        r.carry_ids@ == carry_ids_spec(
            prev_tokens@,
            prev_seg_end as int,
            evicted as int,
            iteration as int,
            *cfg,
        ),
        r.retract as int == retract_count_spec(
            prev_tokens@,
            prev_seg_end as int,
            evicted as int,
            iteration as int,
            *cfg,
            prev_words_len as int,
        ),
        r.retract <= prev_words_len,
{
    let (ids, carried) = carry_scan(prev_tokens, prev_seg_end, evicted, iteration, cfg);
    let retract: usize = if prev_tokens.len() <= 2 || prev_seg_end <= 0 {
        0
    } else if iteration <= cfg.window_depth as u64 {
        prev_words_len
    } else if carried <= prev_words_len as u64 {
        prev_words_len - (carried as usize)
    } else {
        0
    };
    Reconciliation { carry_ids: ids, retract }
}

/// The carry candidates' total text length is never negative.
pub proof fn lemma_filter_len_nonneg(
    ts: Seq<Token>,
    seg_end: int,
    evicted: int,
    iteration: int,
    cfg: StreamConfig,
)
    ensures
        0 <= carry_filter_len(ts, seg_end, evicted, iteration, cfg),
    decreases ts.len(),
{
    if ts.len() > 0 {
        lemma_filter_len_nonneg(ts.drop_last(), seg_end, evicted, iteration, cfg);
    }
}

/// Every id the filter keeps is the id of one of the given tokens.
proof fn lemma_filter_subset(
    ts: Seq<Token>,
    seg_end: int,
    evicted: int,
    iteration: int,
    cfg: StreamConfig,
)
    ensures
        forall|x: i32|
            carry_filter_ids(ts, seg_end, evicted, iteration, cfg).contains(x) ==> ts.map_values(
                |t: Token| t.id,
            ).contains(x),
    decreases ts.len(),
{
    if ts.len() > 0 {
        lemma_filter_subset(ts.drop_last(), seg_end, evicted, iteration, cfg);
        assert forall|x: i32|
            carry_filter_ids(ts, seg_end, evicted, iteration, cfg).contains(
                x,
            ) implies ts.map_values(|t: Token| t.id).contains(x) by {
            if carry_filter_ids(ts.drop_last(), seg_end, evicted, iteration, cfg).contains(x) {
                let m = ts.drop_last().map_values(|t: Token| t.id);
                let i = choose|i: int| 0 <= i < m.len() && m[i] == x;
                assert(ts.map_values(|t: Token| t.id)[i] == x);
                assert(ts.map_values(|t: Token| t.id).contains(x));
            } else {
                assert(x == ts.last().id);
                assert(ts.map_values(|t: Token| t.id)[ts.len() - 1] == x);
                assert(ts.map_values(|t: Token| t.id).contains(x));
            }
        }
    }
}

/// Law: the carry candidates are always a subset of the answer's tokens
/// excluding the first and the last.
pub proof fn lemma_carry_candidates_subset(
    ts: Seq<Token>,
    seg_end: int,
    evicted: int,
    iteration: int,
    cfg: StreamConfig,
)
    requires
        ts.len() >= 2,
    ensures
        forall|x: i32|
            carry_ids_spec(ts, seg_end, evicted, iteration, cfg).contains(x) ==> ts.subrange(
                1,
                ts.len() - 1,
            ).map_values(|t: Token| t.id).contains(x),
{
    if !degenerate_answer(ts, seg_end) {
        lemma_filter_subset(ts.subrange(1, ts.len() - 1), seg_end, evicted, iteration, cfg);
    }
}

/// Law: the retraction count is never negative and never exceeds the
/// previously displayed words' length — text committed before the previous
/// iteration is never retracted.
pub proof fn lemma_retract_bounded(
    ts: Seq<Token>,
    seg_end: int,
    evicted: int,
    iteration: int,
    cfg: StreamConfig,
    prev_words_len: int,
)
    requires
        0 <= prev_words_len,
    ensures
        0 <= retract_count_spec(ts, seg_end, evicted, iteration, cfg, prev_words_len)
            <= prev_words_len,
{
    if !degenerate_answer(ts, seg_end) {
        lemma_filter_len_nonneg(ts.subrange(1, ts.len() - 1), seg_end, evicted, iteration, cfg);
    }
}

/// Law: an all-silence answer — the engine returned no tokens besides the
/// boundary markers — carries nothing forward, appends no text, and causes
/// no retraction.
pub proof fn lemma_silence_idempotent(
    ts: Seq<Token>,
    seg_end: int,
    evicted: int,
    iteration: int,
    cfg: StreamConfig,
    prev_words_len: int,
)
    requires
        ts.len() <= 2,
    ensures
        carry_ids_spec(ts, seg_end, evicted, iteration, cfg) == Seq::<i32>::empty(),
        middle_text(ts) == Seq::<char>::empty(),
        retract_count_spec(ts, seg_end, evicted, iteration, cfg, prev_words_len) == 0,
{
}

} // verus!
