//! The per-symbol pipeline and round isolation on concrete fetch
//! outcomes.

use stc::cli_error::{error_line, CliError};
use stc::messages::{HandleError, PrintProcessedQuote, PrintString, ProcessQuote};
use stc::model::Quote;
use stc::pipeline::{process_fetch, process_quote, run_round, FetchOutcome};
use stc::stats::Ratio;

/// A series of `n` quotes one day apart, starting at `t0`, whose adjusted
/// closes in cents are `base, base + step, base + 2 * step, ...`.
fn quotes(t0: i64, n: i64, base: i64, step: i64) -> Vec<Quote> {
    (0..n).map(|i| Quote { timestamp: t0 + 86400 * i, adjclose: base + step * i }).collect()
}

#[test]
fn empty_series_is_an_error_not_a_fault() {
    let msg = ProcessQuote::new(String::from("AAPL"), 0, Vec::new());
    let r = process_quote(msg);

    assert!(matches!(r, Err(CliError::EmptySeries)));
}

#[test]
fn short_series_yields_missing_data() {
    let msg = ProcessQuote::new(String::from("AAPL"), 0, quotes(1_000_000, 3, 100, 10));
    let r = process_quote(msg);

    assert!(matches!(r, Err(CliError::MissingData)));
}

#[test]
fn full_series_assembles_the_record() {
    // 31 quotes, closes 100, 110, ..., 400 cents
    let msg = ProcessQuote::new(String::from("AAPL"), 555, quotes(1_000_000, 31, 100, 10));
    let q = process_quote(msg).unwrap();

    assert_eq!(q.date, 1_000_000);
    assert_eq!(q.symbol, "AAPL");
    assert_eq!(q.close, 400);
    assert_eq!(q.min, 100);
    assert_eq!(q.max, 400);
    // percent change: (400 - 100) * 100 / 100
    assert_eq!(q.change_percent, Ratio { num: 30000, den: 100 });
    // last window: closes 110..=400, sum 7650 cents
    assert_eq!(q.avg_30d, Ratio { num: 7650, den: 30 });
}

#[test]
fn failed_fetch_passes_through() {
    let out = FetchOutcome {
        symbol: String::from("AAPL"),
        start: 0,
        result: Err(CliError::ProviderError(String::from("connection refused"))),
    };
    let r = process_fetch(out);

    match r {
        Err(CliError::ProviderError(m)) => assert_eq!(m, "connection refused"),
        _ => panic!("expected the provider error back"),
    }
}

#[test]
fn round_isolates_symbols() {
    let bad = FetchOutcome {
        symbol: String::from("AAPL"),
        start: 0,
        result: Err(CliError::ProviderError(String::from("timeout"))),
    };
    let good = FetchOutcome {
        symbol: String::from("MSFT"),
        start: 0,
        result: Ok(quotes(2_000_000, 30, 200, 5)),
    };
    let (results, errors) = run_round(vec![bad, good]);

    assert_eq!(results.len(), 1);
    assert_eq!(errors.len(), 1);
    assert_eq!(results[0].symbol, "MSFT");
    assert!(matches!(&errors[0], CliError::ProviderError(m) if m == "timeout"));
}

#[test]
fn round_of_empty_input_is_empty() {
    let (results, errors) = run_round(Vec::new());

    assert!(results.is_empty());
    assert!(errors.is_empty());
}

#[test]
fn sink_messages_carry_their_payloads() {
    let he = HandleError(CliError::MissingData);
    assert_eq!(error_line(&he.0), "Error: Missing data");

    let ps = PrintString(String::from("header"));
    assert_eq!(ps.0, "header");

    let msg = ProcessQuote::new(String::from("AAPL"), 0, quotes(1_000_000, 30, 100, 10));
    let ppq = PrintProcessedQuote(process_quote(msg).unwrap());
    assert_eq!(ppq.0.symbol, "AAPL");
}

#[test]
fn error_lines_have_the_uniform_prefix() {
    assert_eq!(error_line(&CliError::MissingData), "Error: Missing data");
    assert_eq!(
        error_line(&CliError::DeserializationError),
        "Error: fetched bad data from yahoo! finance"
    );
    assert_eq!(
        error_line(&CliError::EmptySeries),
        "Error: empty quote series for the requested window"
    );
    assert_eq!(
        error_line(&CliError::ProviderError(String::from("no route to host"))),
        "Error: no route to host"
    );
}
