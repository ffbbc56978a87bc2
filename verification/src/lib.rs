//! A sequential, fail-fast build-pipeline runner.
//!
//! A pipeline is an ordered list of steps: workspace preparation followed by
//! external command invocations. The executor walks the list in order, asking
//! its caller to perform one step at a time, and stops at the first failure.
//! Every error is fatal: no retry, no rollback, no partial success.

pub mod error;
pub mod executor;
pub mod pipeline;
pub mod step;
