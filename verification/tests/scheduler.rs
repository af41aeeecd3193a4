//! The scheduler state machine under a mock clock, and the fetch orders of
//! one round.

use stc::args::start_arg_match;
use stc::scheduler::{SchedEvent, SchedPhase, YahooFinance, TICK_SECONDS};

#[test]
fn mock_clock_triggers_n_plus_one_rounds() {
    let mut yf = YahooFinance::new(0, vec![String::from("AAPL")]);
    let mut triggers: u32 = 0;

    if yf.step(SchedEvent::Start).is_some() {
        triggers += 1;
    }
    let n = 5;
    for _ in 0..n {
        if yf.step(SchedEvent::Tick).is_some() {
            triggers += 1;
        }
    }
    assert_eq!(triggers, n + 1);
}

#[test]
fn tick_before_start_does_not_trigger() {
    let mut yf = YahooFinance::new(0, vec![String::from("AAPL")]);

    assert!(yf.step(SchedEvent::Tick).is_none());
    assert_eq!(yf.phase, SchedPhase::Idle);
}

#[test]
fn second_start_does_not_trigger() {
    let mut yf = YahooFinance::new(0, vec![String::from("AAPL")]);

    assert!(yf.step(SchedEvent::Start).is_some());
    assert!(yf.step(SchedEvent::Start).is_none());
    assert_eq!(yf.phase, SchedPhase::Running);
}

#[test]
fn cancel_stops_future_triggers() {
    let mut yf = YahooFinance::new(0, vec![String::from("AAPL")]);

    assert!(yf.step(SchedEvent::Start).is_some());
    assert!(yf.step(SchedEvent::Cancel).is_none());
    assert_eq!(yf.phase, SchedPhase::Stopped);
    assert!(yf.step(SchedEvent::Tick).is_none());
    assert!(yf.step(SchedEvent::Start).is_none());
}

#[test]
fn one_fetch_order_per_symbol() {
    let yf = YahooFinance::new(100, vec![String::from("AAPL"), String::from("MSFT")]);
    let orders = yf.handle(500);

    assert_eq!(orders.len(), 2);
    assert_eq!(orders[0].symbol, "AAPL");
    assert_eq!(orders[1].symbol, "MSFT");
    for o in orders.iter() {
        assert_eq!(o.start, 100);
        assert_eq!(o.end, 500);
    }
}

#[test]
fn duplicate_symbols_fetch_twice() {
    let yf = YahooFinance::new(0, vec![String::from("AAPL"), String::from("AAPL")]);
    let orders = yf.handle(1);

    assert_eq!(orders.len(), 2);
    assert_eq!(orders[0].symbol, "AAPL");
    assert_eq!(orders[1].symbol, "AAPL");
}

#[test]
fn tick_interval_is_thirty_seconds() {
    assert_eq!(TICK_SECONDS, 30);
}

#[test]
fn start_date_shape() {
    assert!(start_arg_match("2020-01-01".as_bytes()));
    assert!(start_arg_match("1999-12-31".as_bytes()));
    assert!(!start_arg_match("2020-1-01".as_bytes()));
    assert!(!start_arg_match("20200101".as_bytes()));
    assert!(!start_arg_match("yyyy-mm-dd".as_bytes()));
    assert!(!start_arg_match("2020-01-01 ".as_bytes()));
    assert!(!start_arg_match("".as_bytes()));
}
