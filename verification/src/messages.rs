//! The messages that flow between the processing units: the scheduler's
//! round trigger, one fetch order, one raw series to process, one
//! computation request and its response, and the sink inputs.

use vstd::prelude::*;

use crate::cli_error::CliError;
use crate::model::{ProcessedQuote, Quote};
use crate::stats::Ratio;

verus! {

/// The scheduler's trigger: fetch every configured symbol once.
pub struct FetchAll;

/// One fetch order: one symbol over the window `[start, end]`, both in unix
/// seconds (UTC).
pub struct Fetch {
    pub symbol: String,
    pub start: i64,
    pub end: i64,
}

impl Fetch {
    pub fn new(symbol: String, start: i64, end: i64) -> (r: Fetch)
        ensures
            r == (Fetch { symbol, start, end }),
    {
        Fetch { symbol, start, end }
    }
}

/// One raw fetched series, tagged with its symbol and the window's start.
pub struct ProcessQuote {
    pub symbol: String,
    pub start: i64,
    pub quotes: Vec<Quote>,
}

impl ProcessQuote {
    pub fn new(symbol: String, start: i64, quotes: Vec<Quote>) -> (r: ProcessQuote)
        ensures
            r == (ProcessQuote { symbol, start, quotes }),
    {
        ProcessQuote { symbol, start, quotes }
    }
}

/// One computation request: the ordered value series, in cents.
pub struct CalcQuoteData(pub Vec<i64>);

/// The engine's response: all four statistics of one series, each present
/// or absent per the engine's rules.
pub struct CalculatedData {
    pub min: Option<i64>,
    pub max: Option<i64>,
    pub sma: Option<Vec<Ratio>>,
    pub percent_diff: Option<Ratio>,
    pub absolute_diff: Option<i128>,
}

impl CalculatedData {
    pub fn new(
        min: Option<i64>,
        max: Option<i64>,
        sma: Option<Vec<Ratio>>,
        percent_diff: Option<Ratio>,
        absolute_diff: Option<i128>,
    ) -> (r: CalculatedData)
        ensures
            r == (CalculatedData { min, max, sma, percent_diff, absolute_diff }),
    {
        CalculatedData { min, max, sma, percent_diff, absolute_diff }
    }
}

/// One failure for the error sink.
pub struct HandleError(pub CliError);

/// One plain line for the result sink, e.g. the header.
pub struct PrintString(pub String);

/// One assembled record for the result sink.
pub struct PrintProcessedQuote(pub ProcessedQuote);

} // verus!
