//! Streaming transcript assembly: an energy-based voice-activity detector
//! driven by raw audio frames, and a tracker that folds word-recognition
//! events into deduplicated partial snapshots and finalized text segments.
//!
//! All times are measured on the audio-derived clock, which counts samples:
//! a timestamp of `n` means `n / sample_rate` seconds. Amplitudes are fixed
//! point integers; callers choose the scale and state the energy threshold
//! in the matching squared-amplitude units.

pub mod chars;
pub mod text;
pub mod vad;
pub mod transcript;
