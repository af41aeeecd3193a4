//! Periodic stock-quote tracker: verified core.
//!
//! The library holds the logic of the tracker: the statistics engine over
//! price series, the per-symbol processing pipeline from a fetched quote
//! series to a printable record, the scheduler state machine that triggers
//! the rounds, and the exact rendering of the output lines.
//!
//! Prices are fixed-point values: an `i64` counts hundredths of the
//! provider's currency unit (cents), so the two-decimal output format is
//! exact. Derived quantities that need not be whole cents (a moving average,
//! a percent change) are exact rationals, see [`stats::Ratio`].
//!
//! Fetching the series from the provider, the clock, and the actor plumbing
//! that runs the rounds concurrently are left to the surrounding binary;
//! the library states what must hold of every value they hand in.

pub mod args;
pub mod cli_error;
pub mod messages;
pub mod model;
pub mod pipeline;
pub mod printer;
pub mod scheduler;
pub mod stats;

pub use stats::Calculator;
