//! One transcription session: the explicitly owned state that the
//! processing loop drives at a fixed cadence. Each iteration has two
//! halves. `begin_iteration` takes the drained samples, advances the
//! window, reconciles the previous engine answer into carry context and a
//! pending retraction, and returns what the engine must be called with.
//! After the engine call, `complete_iteration` applies
//! retract-then-append to the transcript; `abort_iteration` instead leaves
//! the transcript untouched when the engine call failed.

use crate::align::{carry_ids_spec, reconcile, retract_count_spec};
use crate::config::{StreamConfig, MAX_MODEL_TIME};
use crate::rings::{token_ring_capacity, token_ring_contents, TokenRing};
use crate::tokens::{middle_text, middle_text_of, tokens_wf, Token};
use crate::transcript::{retract_spec, Transcript};
use crate::window::SlidingWindow;
use vstd::prelude::*;

verus! {

/// Concatenation of the carry ring's id lists, oldest first: the context
/// handed to the next engine call.
pub open spec fn concat_ids(s: Seq<Seq<i32>>) -> Seq<i32>
    decreases s.len(),
{
    if s.len() == 0 {
        Seq::<i32>::empty()
    } else {
        concat_ids(s.drop_last()) + s.last()
    }
}

/// What one overwrite-oldest push leaves in the carry ring.
pub open spec fn ring_after_push(s: Seq<Seq<i32>>, x: Seq<i32>, cap: int) -> Seq<Seq<i32>> {
    if s.len() < cap {
        s.push(x)
    } else {
        s.drop_first().push(x)
    }
}

/// What the engine must be called with this iteration.
pub struct IterationPlan {
    /// The full current audio window, oldest sample first.
    pub window: Vec<u32>,
    /// Context token ids to replay to the engine, oldest first.
    pub context: Vec<i32>,
    /// How many samples were evicted from the window this iteration.
    pub evicted: usize,
}

/// The whole state of one transcription run.
pub struct Session {
    /// The fixed configuration of the run.
    pub cfg: StreamConfig,
    /// The sliding audio window.
    pub window: SlidingWindow,
    /// Carry-candidate id lists of the last `carry_depth` iterations.
    pub carried: TokenRing,
    /// Everything recognized so far.
    pub transcript: Transcript,
    /// The previous iteration's engine answer.
    pub prev_tokens: Vec<Token>,
    /// The previous answer's whole-segment end time, in model time units.
    pub prev_seg_end: i64,
    /// How many characters the previous iteration appended.
    pub prev_words_len: usize,
    /// Characters to retract when the running iteration completes.
    pub pending_retract: usize,
    /// Iterations begun so far; the running one once `awaiting` is set.
    pub iteration: u64,
    /// Whether an iteration was begun and not yet completed or aborted.
    pub awaiting: bool,
}

impl Session {
    /// The session invariant.
    pub open spec fn wf(self) -> bool {
        &&& self.cfg.wf()
        &&& self.window.wf()
        &&& self.window.depth == self.cfg.window_depth
        &&& self.window.capacity == self.cfg.window_capacity
        &&& token_ring_capacity(self.carried) == self.cfg.carry_depth as nat
        &&& token_ring_contents(self.carried).len() <= self.cfg.carry_depth
        &&& tokens_wf(self.prev_tokens@)
        &&& 0 <= self.prev_seg_end <= MAX_MODEL_TIME
        &&& self.prev_words_len as int == middle_text(self.prev_tokens@).len()
        &&& self.prev_words_len as int <= self.transcript@.len()
        &&& self.pending_retract <= self.prev_words_len
        &&& !self.awaiting ==> self.pending_retract == 0
        &&& self.iteration as int == self.window.history@.len()
        &&& self.iteration == 0 ==> self.prev_tokens@.len() == 0
        &&& self.awaiting ==> self.iteration >= 1
    }

    /// A fresh session: empty window, empty context, empty transcript.
    pub fn new(cfg: StreamConfig) -> (r: Session)
        requires
            cfg.wf(),
        ensures
            r.wf(),
            r.cfg == cfg,
            r.iteration == 0,
            !r.awaiting,
            r.transcript@ == Seq::<char>::empty(),
            r.window.window_view() == Seq::<u32>::empty(),
            token_ring_contents(r.carried) == Seq::<Seq<i32>>::empty(),
    {
        proof {
            assert(2 * cfg.nominal_iter_samples() * cfg.window_depth as int >= 1)
                by (nonlinear_arith)
                requires
                    cfg.nominal_iter_samples() >= 1,
                    cfg.window_depth >= 1,
            ;
        }
        let window = SlidingWindow::new(cfg.window_depth, cfg.window_capacity);
        let carried = TokenRing::with_capacity(cfg.carry_depth);
        Session {
            cfg,
            window,
            carried,
            transcript: Transcript::new(),
            prev_tokens: Vec::new(),
            prev_seg_end: 0,
            prev_words_len: 0,
            pending_retract: 0,
            iteration: 0,
            awaiting: false,
        }
    }

    /// Starts one iteration with the samples drained from the capture
    /// channel: advances the window (recording the accepted sample count
    /// and evicting exactly the count recorded `window_depth` iterations
    /// ago), turns the previous answer into carry context for the engine
    /// and a pending retraction, and returns the window and context for
    /// the engine call. Before the first iteration nothing is retracted.
    pub fn begin_iteration(&mut self, new_samples: &Vec<u32>) -> (r: IterationPlan)
        requires
            old(self).wf(),
            !old(self).awaiting,
            old(self).iteration < u64::MAX,
        ensures
            ({
                let it = old(self).iteration as int + 1;
                let evicted = r.evicted as int;
                let ids = carry_ids_spec(
                    old(self).prev_tokens@,
                    old(self).prev_seg_end as int,
                    evicted,
                    it,
                    old(self).cfg,
                );
                let accepted: int = {
                    let room = old(self).cfg.window_capacity - (old(
                        self,
                    ).window.window_view().len() - evicted);
                    if new_samples@.len() <= room {
                        new_samples@.len() as int
                    } else {
                        room
                    }
                };
                &&& final(self).wf()
                &&& final(self).awaiting
                &&& final(self).cfg == old(self).cfg
                &&& final(self).iteration as int == it
                &&& final(self).transcript@ == old(self).transcript@
                &&& final(self).prev_tokens@ == old(self).prev_tokens@
                &&& final(self).prev_seg_end == old(self).prev_seg_end
                &&& final(self).prev_words_len == old(self).prev_words_len
                &&& r.evicted == old(self).window.counts_view()[0]
                &&& r.evicted as int == (if old(self).window.history@.len() < old(
                    self,
                ).cfg.window_depth {
                    0
                } else {
                    old(self).window.history@[old(self).window.history@.len() - old(
                        self,
                    ).cfg.window_depth] as int
                })
                &&& final(self).window.history@ == old(self).window.history@.push(
                    accepted as usize,
                )
                &&& final(self).window.window_view() == old(self).window.window_view().skip(
                    evicted,
                ) + new_samples@.take(accepted)
                &&& r.window@ == final(self).window.window_view()
                &&& token_ring_contents(final(self).carried) == (if it > 1 {
                    ring_after_push(
                        token_ring_contents(old(self).carried),
                        ids,
                        old(self).cfg.carry_depth as int,
                    )
                } else {
                    token_ring_contents(old(self).carried)
                })
                &&& r.context@ == concat_ids(token_ring_contents(final(self).carried))
                &&& final(self).pending_retract as int == retract_count_spec(
                    old(self).prev_tokens@,
                    old(self).prev_seg_end as int,
                    evicted,
                    it,
                    old(self).cfg,
                    old(self).prev_words_len as int,
                )
                &&& final(self).pending_retract <= old(self).prev_words_len
                &&& final(self).pending_retract as int <= final(self).transcript@.len()
                &&& old(self).iteration == 0 ==> final(self).pending_retract == 0
            }),
    {
        let evicted = self.window.advance(new_samples);
        let iteration = self.iteration + 1;
        self.iteration = iteration;
        let rec = reconcile(
            &self.prev_tokens,
            self.prev_seg_end,
            evicted,
            iteration,
            &self.cfg,
            self.prev_words_len,
        );
        if iteration > 1 {
            let _ = self.carried.push_overwrite(rec.carry_ids);
        }
        self.pending_retract = rec.retract;
        self.awaiting = true;
        let lists = self.carried.to_lists();
        proof {
            assert(lists@.map_values(|v: Vec<i32>| v@) =~= token_ring_contents(self.carried));
        }
        let context = flatten_context(&lists);
        let window = self.window.window_to_vec();
        IterationPlan { window, context, evicted }
    }

    /// Finishes the running iteration with the engine's answer: retracts
    /// the pending character count from the transcript, appends the
    /// answer's middle tokens' text, and keeps the answer for the next
    /// reconciliation. Returns the appended text.
    pub fn complete_iteration(&mut self, tokens: Vec<Token>, seg_end: i64) -> (emitted: Vec<char>)
        requires
            old(self).wf(),
            old(self).awaiting,
            tokens_wf(tokens@),
            0 <= seg_end <= MAX_MODEL_TIME,
            old(self).transcript@.len() + middle_text(tokens@).len() <= usize::MAX,
        ensures
            final(self).wf(),
            !final(self).awaiting,
            final(self).cfg == old(self).cfg,
            final(self).iteration == old(self).iteration,
            final(self).window == old(self).window,
            final(self).carried == old(self).carried,
            emitted@ == middle_text(tokens@),
            final(self).transcript@ == retract_spec(
                old(self).transcript@,
                old(self).pending_retract as int,
            ) + middle_text(tokens@),
            final(self).prev_tokens@ == tokens@,
            final(self).prev_seg_end == seg_end,
            final(self).prev_words_len as int == middle_text(tokens@).len(),
            final(self).pending_retract == 0,
    {
        let emitted = middle_text_of(&tokens);
        self.transcript.retract(self.pending_retract);
        self.transcript.append(&emitted);
        self.prev_words_len = emitted.len();
        self.prev_tokens = tokens;
        self.prev_seg_end = seg_end;
        self.pending_retract = 0;
        self.awaiting = false;
        emitted
    }

    /// Abandons the running iteration after a failed engine call: the
    /// transcript, window and context are kept as they are, the pending
    /// retraction is discarded, and the next reconciliation sees no
    /// previous answer.
    pub fn abort_iteration(&mut self)
        requires
            old(self).wf(),
            old(self).awaiting,
        ensures
            final(self).wf(),
            !final(self).awaiting,
            final(self).cfg == old(self).cfg,
            final(self).iteration == old(self).iteration,
            final(self).window == old(self).window,
            final(self).carried == old(self).carried,
            final(self).transcript@ == old(self).transcript@,
            final(self).prev_tokens@ == Seq::<Token>::empty(),
            final(self).prev_seg_end == 0,
            final(self).prev_words_len == 0,
            final(self).pending_retract == 0,
    {
        self.prev_tokens = Vec::new();
        self.prev_seg_end = 0;
        self.prev_words_len = 0;
        self.pending_retract = 0;
        self.awaiting = false;
    }

    /// The whole transcript recognized so far.
    pub fn transcript_chars(&self) -> (r: Vec<char>)
        ensures
            r@ == self.transcript@,
    {
        self.transcript.chars_vec()
    }

    /// The transcript's current length, in characters.
    pub fn transcript_len(&self) -> (r: usize)
        ensures
            r as int == self.transcript@.len(),
    {
        self.transcript.len()
    }
}

/// Concatenates the carry ring's id lists into the context sequence.
fn flatten_context(lists: &Vec<Vec<i32>>) -> (r: Vec<i32>)
    ensures
        r@ == concat_ids(lists@.map_values(|v: Vec<i32>| v@)),
{
    let mut out: Vec<i32> = Vec::new();
    let n: usize = lists.len();
    proof {
        assert(lists@.map_values(|v: Vec<i32>| v@).take(0) =~= Seq::<Seq<i32>>::empty());
    }
    for i in 0..n
        invariant
            n == lists@.len(),
            out@ == concat_ids(lists@.map_values(|v: Vec<i32>| v@).take(i as int)),
    {
        out.extend_from_slice(lists[i].as_slice());
        proof {
            let m = lists@.map_values(|v: Vec<i32>| v@);
            assert(m.take(i + 1).drop_last() =~= m.take(i as int));
            assert(m.take(i + 1).last() == m[i as int]);
        }
    }
    proof {
        let m = lists@.map_values(|v: Vec<i32>| v@);
        assert(m.take(n as int) =~= m);
    }
    out
}

} // verus!
