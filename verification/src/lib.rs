//! Calculation core of a focus/break countdown timer.
//!
//! The engine tracks one countdown (phase, configured duration, anchor
//! instant, cached remaining time) and computes elapsed and remaining time,
//! `MM:SS` display strings, progress, phase transitions and an adaptive
//! update cadence. It never reads a clock itself: every time-dependent
//! operation takes the caller's millisecond clock reading as an argument, so
//! the whole engine is a pure function of its inputs.

pub mod batch;
pub mod engine;
pub mod formatting;
