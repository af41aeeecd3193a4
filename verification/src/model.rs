//! The data model: one quote as the provider reports it, and the fully
//! assembled record for one symbol in one round.

use vstd::prelude::*;

use crate::stats::Ratio;

verus! {

/// One timestamped price observation: the moment in unix seconds (UTC) and
/// the adjusted close in cents.
#[derive(Clone, Copy, Debug, PartialEq, Eq, Structural)]
pub struct Quote {
    pub timestamp: i64,
    pub adjclose: i64,
}

/// The printable record for one symbol in one round: the period's start
/// (the first quote's timestamp, unix seconds UTC), the symbol, the last
/// close and the extremes in cents, and the exact percent change and latest
/// moving average.
#[derive(Debug, Clone)]
pub struct ProcessedQuote {
    pub date: i64,
    pub symbol: String,
    pub close: i64,
    pub change_percent: Ratio,
    pub min: i64,
    pub max: i64,
    pub avg_30d: Ratio,
}

impl ProcessedQuote {
    pub fn new(
        date: i64,
        symbol: String,
        close: i64,
        change_percent: Ratio,
        min: i64,
        max: i64,
        avg_30d: Ratio,
    ) -> (r: ProcessedQuote)
        ensures
            r == (ProcessedQuote { date, symbol, close, change_percent, min, max, avg_30d }),
    {
        ProcessedQuote { date, symbol, close, change_percent, min, max, avg_30d }
    }
}

} // verus!
