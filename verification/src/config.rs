//! Fixed-at-startup parameters of a transcription run, and the bounds that
//! keep the alignment arithmetic exact in 128-bit integers.

use vstd::prelude::*;

verus! {

/// Largest accepted nominal iteration length, in milliseconds (2^20).
pub const MAX_LATENCY_MS: u64 = 1048576;

/// Largest accepted window depth, in iterations (2^10).
pub const MAX_WINDOW_DEPTH: usize = 1024;

/// Largest accepted carried-context depth, in iterations (2^10).
pub const MAX_CARRY_DEPTH: usize = 1024;

/// Largest accepted sample rate, in samples per second (2^20).
pub const MAX_SAMPLE_RATE: u32 = 1048576;

/// Largest accepted engine timestamp, in model time units (2^40).
pub const MAX_MODEL_TIME: i64 = 1099511627776;

/// Largest accepted rendered text of a single token, in characters (2^32 - 1).
pub const MAX_TOKEN_TEXT: usize = 4294967295;

/// Largest accepted number of tokens in one engine answer (2^20).
pub const MAX_TOKENS: usize = 1048576;

/// The configuration of a run: nominal iteration latency, window depth K
/// (iterations retained), carried-context depth, sample rate, and the
/// derived sample capacity of the sliding window.
pub struct StreamConfig {
    /// Nominal iteration length in milliseconds.
    pub latency_ms: u64,
    /// Number of iterations whose samples the window retains (K).
    pub window_depth: usize,
    /// Number of iterations whose carry tokens are replayed as context.
    pub carry_depth: usize,
    /// Samples per second of the captured audio.
    pub sample_rate: u32,
    /// Sample capacity of the window: twice the nominal per-iteration
    /// sample count times the window depth, to tolerate jitter.
    pub window_capacity: usize,
}

impl StreamConfig {
    /// Nominal number of samples captured during one iteration.
    pub open spec fn nominal_iter_samples(self) -> int {
        self.latency_ms as int * self.sample_rate as int / 1000
    }

    /// A well-formed configuration: every field positive, within the bounds
    /// that keep the alignment arithmetic exact, and the window capacity
    /// derived from the other fields.
    pub open spec fn wf(self) -> bool {
        &&& 1 <= self.latency_ms <= MAX_LATENCY_MS
        &&& 1 <= self.window_depth <= MAX_WINDOW_DEPTH
        &&& 1 <= self.carry_depth <= MAX_CARRY_DEPTH
        &&& 1 <= self.sample_rate <= MAX_SAMPLE_RATE
        &&& 1 <= self.nominal_iter_samples()
        &&& self.window_capacity == 2 * self.nominal_iter_samples() * self.window_depth
    }

    /// Whether the given raw options are accepted.
    pub open spec fn options_ok(
        latency_ms: u64,
        window_depth: usize,
        carry_depth: usize,
        sample_rate: u32,
    ) -> bool {
        &&& 1 <= latency_ms <= MAX_LATENCY_MS
        &&& 1 <= window_depth <= MAX_WINDOW_DEPTH
        &&& 1 <= carry_depth <= MAX_CARRY_DEPTH
        &&& 1 <= sample_rate <= MAX_SAMPLE_RATE
        &&& 1 <= latency_ms as int * sample_rate as int / 1000
        &&& 2 * (latency_ms as int * sample_rate as int / 1000) * window_depth <= usize::MAX
    }

    /// Validates the raw options and derives the window capacity. Returns
    /// `None` exactly when an option is zero, out of bounds, or the derived
    /// capacity does not fit the machine.
    pub fn new(
        latency_ms: u64,
        window_depth: usize,
        carry_depth: usize,
        sample_rate: u32,
    ) -> (r: Option<StreamConfig>)
        ensures
            r is Some <==> Self::options_ok(latency_ms, window_depth, carry_depth, sample_rate),
            r matches Some(c) ==> c.wf() && c.latency_ms == latency_ms
                && c.window_depth == window_depth && c.carry_depth == carry_depth
                && c.sample_rate == sample_rate,
    {
        if latency_ms < 1 || latency_ms > MAX_LATENCY_MS {
            return None;
        }
        if window_depth < 1 || window_depth > MAX_WINDOW_DEPTH {
            return None;
        }
        if carry_depth < 1 || carry_depth > MAX_CARRY_DEPTH {
            return None;
        }
        if sample_rate < 1 || sample_rate > MAX_SAMPLE_RATE {
            return None;
        }
        proof {
            assert(latency_ms as int * sample_rate as int <= 1048576 * 1048576)
                by (nonlinear_arith)
                requires
                    latency_ms <= 1048576,
                    sample_rate <= 1048576,
            ;
        }
        let nominal: u64 = (latency_ms * (sample_rate as u64)) / 1000;
        if nominal < 1 {
            return None;
        }
        proof {
            assert(2 * (nominal as int) * (window_depth as int) <= 2 * 1099511627776 * 1024)
                by (nonlinear_arith)
                requires
                    nominal <= 1099511627776,
                    window_depth <= 1024,
            ;
        }
        let doubled: u64 = 2 * nominal * (window_depth as u64);
        if doubled > (usize::MAX as u64) {
            return None;
        }
        Some(StreamConfig {
            latency_ms,
            window_depth,
            carry_depth,
            sample_rate,
            window_capacity: doubled as usize,
        })
    }
}

} // verus!
