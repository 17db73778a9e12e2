//! Verdicts for single-step polling of futures and streams.
//!
//! A test polls a future or a stream once (or drives a future to completion)
//! and hands the outcome to one of the checks here. Each check says whether
//! the outcome is the one expected, and if not, which expectation failed.
pub mod failure;
pub mod future;
pub mod notifier;
mod poll;
pub mod stream;
