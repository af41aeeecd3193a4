//! The per-symbol processing pipeline: from one fetch outcome to exactly
//! one record — a printable result or a tagged failure — with no effect on
//! any other symbol or round.

use vstd::prelude::*;

use crate::cli_error::CliError;
use crate::messages::{CalcQuoteData, ProcessQuote};
use crate::model::{ProcessedQuote, Quote};
use crate::printer::renderable;
use crate::stats::{
    lemma_seq_sum_bound, seq_max, seq_min, spec_percent_change, window_sum, Calculator, Ratio,
    SMA_WINDOW,
};

verus! {

/// The ordered adjusted-close value series of a quote sequence.
pub open spec fn series_of(quotes: Seq<Quote>) -> Seq<i64> {
    quotes.map_values(|q: Quote| q.adjclose)
}

/// The record that a successful round assembles: the period start is the
/// first quote's timestamp, the price is the last close, and the latest
/// moving average is the mean of the final window.
pub open spec fn spec_processed(msg: ProcessQuote) -> ProcessedQuote {
    let s = series_of(msg.quotes@);
    ProcessedQuote {
        date: msg.quotes@[0].timestamp,
        symbol: msg.symbol,
        close: s.last(),
        change_percent: spec_percent_change(s),
        min: seq_min(s) as i64,
        max: seq_max(s) as i64,
        avg_30d: Ratio {
            num: window_sum(s, s.len() - SMA_WINDOW, SMA_WINDOW as int) as i128,
            den: SMA_WINDOW as i128,
        },
    }
}

/// One symbol's round after the fetch: extraction, computation and
/// assembly. An empty series is an `EmptySeries` failure; a series shorter
/// than the moving-average window leaves the latest average absent, a
/// `MissingData` failure; otherwise the round emits the fully assembled
/// record.
pub fn process_quote(msg: ProcessQuote) -> (r: Result<ProcessedQuote, CliError>)
    ensures
        msg.quotes@.len() == 0 ==> r == Err::<ProcessedQuote, CliError>(CliError::EmptySeries),
        0 < msg.quotes@.len() < SMA_WINDOW ==> r == Err::<ProcessedQuote, CliError>(
            CliError::MissingData,
        ),
        msg.quotes@.len() >= SMA_WINDOW ==> r == Ok::<ProcessedQuote, CliError>(
            spec_processed(msg),
        ),
        r matches Ok(q) ==> renderable(q),
{
    let ProcessQuote { symbol, start: _, quotes } = msg;
    if quotes.len() == 0 {
        return Err(CliError::EmptySeries);
    }
    let date = quotes[0].timestamp;

    // Extraction: the ordered adjusted-close value series.
    let mut series: Vec<i64> = Vec::new();
    let mut i: usize = 0;
    while i < quotes.len()
        invariant
            i <= quotes@.len(),
            series@ == series_of(quotes@.take(i as int)),
        decreases quotes@.len() - i,
    {
        series.push(quotes[i].adjclose);
        proof {
            assert(series_of(quotes@.take(i + 1)) =~= series_of(quotes@.take(i as int)).push(
                quotes@[i as int].adjclose,
            ));
        }
        i = i + 1;
    }
    proof {
        assert(quotes@.take(quotes@.len() as int) =~= quotes@);
    }
    let current = series[series.len() - 1];

    // Computation: one request to the engine for all four statistics.
    let data = Calculator::handle(CalcQuoteData(series));

    // Assembly: each required field must be present.
    let min = match data.min {
        Some(m) => m,
        None => {
            return Err(CliError::MissingData);
        },
    };
    let max = match data.max {
        Some(m) => m,
        None => {
            return Err(CliError::MissingData);
        },
    };
    let sma = match data.sma {
        Some(v) => v,
        None => {
            return Err(CliError::MissingData);
        },
    };
    let avg = if sma.len() == 0 {
        return Err(CliError::MissingData);
    } else {
        sma[sma.len() - 1]
    };
    let diff = match data.percent_diff {
        Some(p) => p,
        None => {
            return Err(CliError::MissingData);
        },
    };
    proof {
        let s = series_of(quotes@);
        lemma_seq_sum_bound(s.subrange(s.len() - SMA_WINDOW, s.len() as int));
    }
    Ok(ProcessedQuote::new(date, symbol, current, diff, min, max, avg))
}

/// One symbol's fetch outcome in one round: the raw series, or the tagged
/// failure the fetch stage reported.
pub struct FetchOutcome {
    pub symbol: String,
    pub start: i64,
    pub result: Result<Vec<Quote>, CliError>,
}

/// The single record one symbol's round produces for its fetch outcome.
pub open spec fn spec_outcome(it: FetchOutcome) -> Result<ProcessedQuote, CliError> {
    match it.result {
        Err(e) => Err(e),
        Ok(quotes) => {
            if quotes@.len() == 0 {
                Err(CliError::EmptySeries)
            } else if quotes@.len() < SMA_WINDOW {
                Err(CliError::MissingData)
            } else {
                Ok(spec_processed(ProcessQuote { symbol: it.symbol, start: it.start, quotes }))
            }
        },
    }
}

/// Routes one symbol's fetch outcome: a failed fetch goes to the error
/// sink unchanged and ends the symbol's round; a fetched series runs
/// through the pipeline.
pub fn process_fetch(it: FetchOutcome) -> (r: Result<ProcessedQuote, CliError>)
    ensures
        r == spec_outcome(it),
        r matches Ok(q) ==> renderable(q),
{
    let FetchOutcome { symbol, start, result } = it;
    match result {
        Err(e) => Err(e),
        Ok(quotes) => process_quote(ProcessQuote::new(symbol, start, quotes)),
    }
}

/// The results a round's outcomes produce, in arrival order.
pub open spec fn spec_round_results(items: Seq<FetchOutcome>) -> Seq<ProcessedQuote>
    decreases items.len(),
{
    if items.len() == 0 {
        Seq::empty()
    } else {
        let rest = spec_round_results(items.drop_last());
        match spec_outcome(items.last()) {
            Ok(q) => rest.push(q),
            Err(_) => rest,
        }
    }
}

/// The errors a round's outcomes produce, in arrival order.
pub open spec fn spec_round_errors(items: Seq<FetchOutcome>) -> Seq<CliError>
    decreases items.len(),
{
    if items.len() == 0 {
        Seq::empty()
    } else {
        let rest = spec_round_errors(items.drop_last());
        match spec_outcome(items.last()) {
            Ok(_) => rest,
            Err(e) => rest.push(e),
        }
    }
}

/// Failures are strictly per symbol and per round: every outcome of a
/// round yields exactly one record — a result line or an error record,
/// never both, never neither — so one symbol's failure cannot change
/// another symbol's output.
pub proof fn lemma_round_isolation(items: Seq<FetchOutcome>)
    ensures
        spec_round_results(items).len() + spec_round_errors(items).len() == items.len(),
        forall|i: int|
            0 <= i < items.len() ==> ((#[trigger] spec_outcome(items[i])) is Ok
                <==> spec_round_results(items.take(i + 1)).len() == spec_round_results(
                items.take(i),
            ).len() + 1),
        forall|i: int|
            0 <= i < items.len() ==> ((#[trigger] spec_outcome(items[i])) is Err
                <==> spec_round_errors(items.take(i + 1)).len() == spec_round_errors(
                items.take(i),
            ).len() + 1),
    decreases items.len(),
{
    if items.len() > 0 {
        lemma_round_isolation(items.drop_last());
        assert(items.drop_last() =~= items.take(items.len() - 1));
        assert forall|i: int|
            0 <= i < items.len() implies ((#[trigger] spec_outcome(items[i])) is Ok
            <==> spec_round_results(items.take(i + 1)).len() == spec_round_results(
            items.take(i),
        ).len() + 1) && (spec_outcome(items[i]) is Err <==> spec_round_errors(
            items.take(i + 1),
        ).len() == spec_round_errors(items.take(i)).len() + 1) by {
            assert(items.take(i + 1).drop_last() =~= items.take(i));
            if i < items.len() - 1 {
                assert(items.take(i + 1) =~= items.drop_last().take(i + 1));
                assert(items.take(i) =~= items.drop_last().take(i));
                assert(spec_outcome(items.drop_last()[i]) is Ok <==> spec_round_results(
                    items.drop_last().take(i + 1),
                ).len() == spec_round_results(items.drop_last().take(i)).len() + 1);
                assert(spec_outcome(items.drop_last()[i]) is Err <==> spec_round_errors(
                    items.drop_last().take(i + 1),
                ).len() == spec_round_errors(items.drop_last().take(i)).len() + 1);
            } else {
                assert(items.take(i + 1) =~= items);
            }
        }
    }
}

/// One full round over every configured symbol's outcome: each outcome
/// contributes its one record to exactly one of the two sinks, results and
/// errors each in arrival order.
pub fn run_round(outcomes: Vec<FetchOutcome>) -> (r: (Vec<ProcessedQuote>, Vec<CliError>))
    ensures
        r.0@ == spec_round_results(outcomes@),
        r.1@ == spec_round_errors(outcomes@),
{
    let ghost orig = outcomes@;
    let mut items = outcomes;
    let mut results: Vec<ProcessedQuote> = Vec::new();
    let mut errors: Vec<CliError> = Vec::new();
    while items.len() > 0
        invariant
            items@.len() <= orig.len(),
            items@ == orig.subrange(orig.len() - items@.len(), orig.len() as int),
            results@ == spec_round_results(orig.take(orig.len() - items@.len())),
            errors@ == spec_round_errors(orig.take(orig.len() - items@.len())),
        decreases items@.len(),
    {
        let ghost k = orig.len() - items@.len();
        let it = items.remove(0);
        proof {
            assert(it == orig[k]);
            assert(items@ =~= orig.subrange(orig.len() - items@.len(), orig.len() as int));
            assert(orig.take(k + 1).drop_last() =~= orig.take(k));
            assert(orig.take(k + 1).last() == orig[k]);
        }
        match process_fetch(it) {
            Ok(q) => results.push(q),
            Err(e) => errors.push(e),
        }
    }
    proof {
        assert(orig.take(orig.len() as int) =~= orig);
    }
    (results, errors)
}

} // verus!
