//! Streaming window and reconciliation engine for continuous, low-latency
//! transcription of a live audio stream by a finite-context recognition
//! engine.
//!
//! The library keeps a bounded sliding window of the most recent audio,
//! decides which older samples to evict each iteration, carries recognized
//! tokens across windows as context, aligns engine-reported token timestamps
//! back to elapsed sample time, and stitches window-local recognition
//! results into one continuously growing transcript.

pub mod align;
pub mod config;
pub mod rings;
pub mod sched;
pub mod session;
pub mod tokens;
pub mod transcript;
pub mod window;
