//! The statistics engine on concrete series. Prices enter the library as
//! fixed-point cents, so each dollar figure from the scenarios is written
//! as `value * 100` and read back the same way.

use stc::messages::CalcQuoteData;
use stc::stats::{Calculator, Ratio};

fn cents(x: f64) -> i64 {
    (x * 100.0).round() as i64
}

fn money(values: &[f64]) -> Vec<i64> {
    values.iter().map(|&x| cents(x)).collect()
}

/// The exact value of a rational, e.g. a percent change.
fn ratio_value(r: &Ratio) -> f64 {
    r.num as f64 / r.den as f64
}

/// The dollar value of a rational over cent prices, e.g. a moving average.
fn ratio_dollars(r: &Ratio) -> f64 {
    ratio_value(r) / 100.0
}

#[test]
fn min_works() {
    let input = money(&[1.0, 2.0, 3.0, 4.0, 5.0]);
    let min = Calculator::min(&input);

    assert!(min.is_some());
    assert!((min.unwrap() as f64 / 100.0 - 1.0).abs() < f64::EPSILON);
}

#[test]
fn min_none() {
    let input = Vec::new();
    let min = Calculator::min(&input);

    assert!(min.is_none());
}

#[test]
fn max_works() {
    let input = money(&[1.0, 2.0, 3.0, 4.0, 5.0]);
    let max = Calculator::max(&input);

    assert!(max.is_some());
    assert!((max.unwrap() as f64 / 100.0 - 5.0).abs() < f64::EPSILON);
}

#[test]
fn max_none() {
    let input = Vec::new();
    let max = Calculator::max(&input);

    assert!(max.is_none());
}

#[test]
fn sma_works() {
    let input = money(&[1.0, 2.0, 3.0, 4.0, 5.0]);
    let sma = Calculator::n_window_sma(5, &input);

    assert!(sma.is_some());
    let vec = sma.unwrap();
    let sma = vec.last();

    assert!(sma.is_some());
    assert!((ratio_dollars(sma.unwrap()) - 3.0).abs() < f64::EPSILON);
}

#[test]
fn sma_none_empty_vec() {
    let input = Vec::new();
    let sma = Calculator::n_window_sma(5, &input);

    assert!(sma.is_none());
}

#[test]
fn sma_none_n_zero() {
    let input = money(&[1.0, 2.0, 3.0, 4.0, 5.0]);
    let sma = Calculator::n_window_sma(0, &input);

    assert!(sma.is_none());
}

#[test]
fn price_diff_works() {
    let input = money(&[1.0, 2.0, 3.0, 4.0, 5.0]);
    let diff = Calculator::price_diff(&input);

    assert!(diff.is_some());
    let (p_diff, a_diff) = diff.unwrap();

    assert!((ratio_value(&p_diff) - 400.0).abs() < f64::EPSILON);
    assert!((a_diff as f64 / 100.0 - 4.0).abs() < f64::EPSILON);
}

#[test]
fn price_diff_none() {
    let input = Vec::new();
    let diff = Calculator::price_diff(&input);

    assert!(diff.is_none());
}

#[test]
fn sma_exact_rational() {
    let input = money(&[1.0, 2.0, 3.0, 4.0, 5.0]);
    let sma = Calculator::n_window_sma(5, &input).unwrap();

    assert_eq!(sma.len(), 1);
    assert_eq!(sma[0], Ratio { num: 1500, den: 5 });
}

#[test]
fn sma_shorter_than_window_is_empty() {
    let input = money(&[1.0, 2.0, 3.0]);
    let sma = Calculator::n_window_sma(30, &input);

    assert!(sma.is_some());
    assert_eq!(sma.unwrap().len(), 0);
}

#[test]
fn sma_sliding_windows() {
    let input = money(&[1.0, 2.0, 3.0, 4.0, 5.0]);
    let sma = Calculator::n_window_sma(2, &input).unwrap();

    assert_eq!(sma.len(), 4);
    assert_eq!(sma[0], Ratio { num: 300, den: 2 });
    assert_eq!(sma[1], Ratio { num: 500, den: 2 });
    assert_eq!(sma[2], Ratio { num: 700, den: 2 });
    assert_eq!(sma[3], Ratio { num: 900, den: 2 });
}

#[test]
fn price_diff_zero_first_is_finite() {
    let input = money(&[0.0, 5.0]);
    let diff = Calculator::price_diff(&input);

    assert!(diff.is_some());
    let (p_diff, a_diff) = diff.unwrap();

    assert!(p_diff.den >= 1);
    assert!((ratio_value(&p_diff) - 500.0).abs() < f64::EPSILON);
    assert!((a_diff as f64 / 100.0 - 5.0).abs() < f64::EPSILON);
    assert!(ratio_value(&p_diff).is_finite());
}

#[test]
fn min_max_bound_all_elements() {
    let input = money(&[3.0, 1.0, 4.0, 1.5, 9.0, 2.6]);
    let min = Calculator::min(&input).unwrap();
    let max = Calculator::max(&input).unwrap();

    for &x in input.iter() {
        assert!(min <= x && x <= max);
    }
    assert_eq!(min, 100);
    assert_eq!(max, 900);
}

#[test]
fn handle_empty_series_reports_no_data() {
    let data = Calculator::handle(CalcQuoteData(Vec::new()));

    assert!(data.min.is_none());
    assert!(data.max.is_none());
    assert!(data.sma.is_none());
    assert!(data.percent_diff.is_none());
    assert!(data.absolute_diff.is_none());
}

#[test]
fn handle_full_series() {
    let values: Vec<f64> = (1..=31).map(|i| i as f64).collect();
    let data = Calculator::handle(CalcQuoteData(money(&values)));

    assert_eq!(data.min, Some(100));
    assert_eq!(data.max, Some(3100));
    let sma = data.sma.unwrap();
    assert_eq!(sma.len(), 2);
    // windows 1..=30 and 2..=31, in cents
    assert_eq!(sma[0], Ratio { num: 46500, den: 30 });
    assert_eq!(sma[1], Ratio { num: 49500, den: 30 });
    assert_eq!(data.percent_diff, Some(Ratio { num: 300000, den: 100 }));
    assert_eq!(data.absolute_diff, Some(3000));
}
