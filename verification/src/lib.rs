//! A loudness-burst counter: estimates the ambient noise floor from a live
//! loudness signal, calibrates a detection threshold from an initial burst of
//! activity, and then classifies discrete loudness bursts as hard or soft
//! until a configured deadline passes.
//!
//! Loudness is a decibel-like scalar held in fixed point (thousandths of a
//! decibel), with an explicit value for true silence that compares below
//! every finite value; time is held in integer milliseconds. The caller
//! supplies the current time and the per-block loudness values; everything
//! else — the rolling baseline, the calibration state machine, peak detection
//! with debounce, and hard/soft classification — is decided here.

pub mod laws;
pub mod loudness;
pub mod state;
