//! The result sink's output format: the CSV header and one exactly
//! rendered line per processed record.
//!
//! All numeric rendering is on fixed-point values: a price in cents prints
//! as a sign, a whole part, a dot and exactly two fraction digits; an exact
//! rational prints the same way after rounding to the nearest hundredth,
//! ties away from zero.

use vstd::arithmetic::div_mod::{lemma_div_is_ordered_by_denominator, lemma_div_nonincreasing};
use vstd::prelude::*;

use crate::model::ProcessedQuote;

verus! {

/// The fixed header line of the output stream.
pub open spec fn spec_header() -> Seq<char> {
    "period start,symbol,price,change %,min,max,30d avg"@
}

/// The header line, printed once at process start.
pub fn header_line() -> (r: String)
    ensures
        r@ == spec_header(),
{
    String::from_str("period start,symbol,price,change %,min,max,30d avg")
}

/// The decimal digits of `n`, most significant first.
pub open spec fn dec_bytes(n: int) -> Seq<u8>
    recommends
        n >= 0,
    decreases n,
{
    if n < 10 {
        seq![(48 + n) as u8]
    } else {
        dec_bytes(n / 10).push((48 + n % 10) as u8)
    }
}

/// The two-decimal rendering of `v` hundredths: an optional minus sign,
/// the whole part, a dot, two fraction digits.
pub open spec fn two_dp_bytes(v: int) -> Seq<u8> {
    let m = if v < 0 {
        -v
    } else {
        v
    };
    let sign: Seq<u8> = if v < 0 {
        seq![45u8]
    } else {
        Seq::empty()
    };
    sign + dec_bytes(m / 100) + seq![46u8, (48 + (m / 10) % 10) as u8, (48 + m % 10) as u8]
}

/// ASCII bytes read as characters.
pub open spec fn ascii_chars(b: Seq<u8>) -> Seq<char> {
    b.map_values(|x: u8| x as char)
}

/// `num / den` in hundredths, rounded to the nearest integer, ties away
/// from zero: the two-decimal rendering of the ratio's bare value, e.g. a
/// percent change.
pub open spec fn round2(num: int, den: int) -> int
    recommends
        den >= 1,
{
    if num >= 0 {
        (200 * num + den) / (2 * den)
    } else {
        -((200 * (-num) + den) / (2 * den))
    }
}

/// `num / den` rounded to the nearest integer, ties away from zero: the
/// nearest whole cent of a cent-valued ratio, e.g. a moving average.
pub open spec fn round_cents(num: int, den: int) -> int
    recommends
        den >= 1,
{
    if num >= 0 {
        (2 * num + den) / (2 * den)
    } else {
        -((2 * (-num) + den) / (2 * den))
    }
}

/// The bounds under which a record renders without overflow: both
/// rationals are well formed and sit well inside the fixed-point range.
pub open spec fn renderable(q: ProcessedQuote) -> bool {
    &&& q.change_percent.wf()
    &&& q.avg_30d.wf()
    &&& q.change_percent.den <= 0xffff_ffff_ffff_ffff
    &&& q.avg_30d.den <= 0xffff_ffff_ffff_ffff
    &&& -0x10000000000000000000000000 < q.change_percent.num < 0x10000000000000000000000000
    &&& -0x10000000000000000000000000 < q.avg_30d.num < 0x10000000000000000000000000
}

/// The full CSV line for one record: period start as RFC 3339, symbol,
/// price, percent change, minimum, maximum and latest moving average, the
/// money fields with a dollar sign, all numbers to two decimals.
pub open spec fn spec_line(q: ProcessedQuote) -> Seq<char> {
    rfc3339_of(q.date as int) + ","@ + q.symbol@ + ",$"@ + ascii_chars(
        two_dp_bytes(q.close as int),
    ) + ","@ + ascii_chars(two_dp_bytes(round2(q.change_percent.num as int, q.change_percent.den as int)))
        + "%,$"@ + ascii_chars(two_dp_bytes(q.min as int)) + ",$"@ + ascii_chars(
        two_dp_bytes(q.max as int),
    ) + ",$"@ + ascii_chars(two_dp_bytes(round_cents(q.avg_30d.num as int, q.avg_30d.den as int)))
}

/// What chrono renders for a unix timestamp: RFC 3339 with the UTC offset.
/// The rendering depends on the timestamp alone.
pub uninterp spec fn rfc3339_of(ts: int) -> Seq<char>;

/// Relies on chrono's `DateTime::<Utc>::from_timestamp` and `to_rfc3339`:
/// both are pure, so the rendered text is a function of the timestamp
/// alone (out-of-range timestamps give the fixed empty fallback).
#[verifier::external_body]
fn rfc3339_utc(ts: i64) -> (r: String)
    ensures
        r@ == rfc3339_of(ts as int),
{
    match chrono::DateTime::<chrono::Utc>::from_timestamp(ts, 0) {
        Some(dt) => dt.to_rfc3339(),
        None => String::new(),
    }
}

/// Relies on `String::from_utf8`: ASCII bytes decode to themselves, one
/// character per byte.
#[verifier::external_body]
fn ascii_to_string(bytes: Vec<u8>) -> (r: String)
    requires
        forall|i: int| 0 <= i < bytes@.len() ==> bytes@[i] < 128,
    ensures
        r@ == ascii_chars(bytes@),
{
    match String::from_utf8(bytes) {
        Ok(s) => s,
        Err(_) => String::new(),
    }
}

/// Every byte of a decimal rendering is ASCII.
proof fn lemma_dec_bytes_ascii(n: int)
    requires
        n >= 0,
    ensures
        forall|i: int| 0 <= i < dec_bytes(n).len() ==> dec_bytes(n)[i] < 128,
    decreases n,
{
    if n >= 10 {
        lemma_dec_bytes_ascii(n / 10);
        assert forall|i: int| 0 <= i < dec_bytes(n).len() implies dec_bytes(n)[i] < 128 by {
            if i < dec_bytes(n).len() - 1 {
                assert(dec_bytes(n)[i] == dec_bytes(n / 10)[i]);
            }
        }
    }
}

/// Every byte of a two-decimal rendering is ASCII.
proof fn lemma_two_dp_ascii(v: int)
    ensures
        forall|i: int| 0 <= i < two_dp_bytes(v).len() ==> two_dp_bytes(v)[i] < 128,
{
    let m = if v < 0 {
        -v
    } else {
        v
    };
    lemma_dec_bytes_ascii(m / 100);
}

/// Appends the decimal digits of `n`, most significant first.
fn push_dec(n: u128, out: &mut Vec<u8>)
    ensures
        final(out)@ == old(out)@ + dec_bytes(n as int),
    decreases n,
{
    if n >= 10 {
        push_dec(n / 10, out);
    }
    out.push(48 + (n % 10) as u8);
    proof {
        if n >= 10 {
            assert(out@ =~= old(out)@ + dec_bytes(n as int));
        } else {
            assert(out@ =~= old(out)@ + dec_bytes(n as int));
        }
    }
}

/// Appends the two-decimal rendering of `v` hundredths.
fn push_two_dp(v: i128, out: &mut Vec<u8>)
    requires
        -0x1000000000000000000000000000000 < v < 0x1000000000000000000000000000000,
    ensures
        final(out)@ == old(out)@ + two_dp_bytes(v as int),
{
    let neg = v < 0;
    let mag: u128 = if neg {
        (-v) as u128
    } else {
        v as u128
    };
    if neg {
        out.push(45);
    }
    push_dec(mag / 100, out);
    out.push(46);
    out.push(48 + ((mag / 10) % 10) as u8);
    out.push(48 + (mag % 10) as u8);
    proof {
        assert(out@ =~= old(out)@ + two_dp_bytes(v as int));
    }
}

/// The two-decimal rendering of `v` hundredths, as a string.
pub fn two_dp_string(v: i128) -> (r: String)
    requires
        -0x1000000000000000000000000000000 < v < 0x1000000000000000000000000000000,
    ensures
        r@ == ascii_chars(two_dp_bytes(v as int)),
{
    let mut bytes: Vec<u8> = Vec::new();
    push_two_dp(v, &mut bytes);
    proof {
        lemma_two_dp_ascii(v as int);
    }
    ascii_to_string(bytes)
}

/// `num / den` in hundredths, rounded half away from zero.
pub fn round2_hundredths(num: i128, den: i128) -> (r: i128)
    requires
        1 <= den <= 0xffff_ffff_ffff_ffff,
        -0x10000000000000000000000000 < num < 0x10000000000000000000000000,
    ensures
        r == round2(num as int, den as int),
        -0x40000000000000000000000000000 < r < 0x40000000000000000000000000000,
{
    let neg = num < 0;
    let mag: u128 = if neg {
        (-num) as u128
    } else {
        num as u128
    };
    let d: u128 = den as u128;
    let t: u128 = 200 * mag + d;
    let q: u128 = t / (2 * d);
    proof {
        lemma_div_is_ordered_by_denominator(t as int, 2, 2 * d as int);
        lemma_div_nonincreasing(t as int, 2 as int);
    }
    if neg {
        -(q as i128)
    } else {
        q as i128
    }
}

/// The nearest whole cent of `num / den` cents, ties away from zero.
pub fn round_cents_nearest(num: i128, den: i128) -> (r: i128)
    requires
        1 <= den <= 0xffff_ffff_ffff_ffff,
        -0x10000000000000000000000000 < num < 0x10000000000000000000000000,
    ensures
        r == round_cents(num as int, den as int),
        -0x40000000000000000000000000000 < r < 0x40000000000000000000000000000,
{
    let neg = num < 0;
    let mag: u128 = if neg {
        (-num) as u128
    } else {
        num as u128
    };
    let d: u128 = den as u128;
    let t: u128 = 2 * mag + d;
    let q: u128 = t / (2 * d);
    proof {
        lemma_div_is_ordered_by_denominator(t as int, 2, 2 * d as int);
        lemma_div_nonincreasing(t as int, 2 as int);
    }
    if neg {
        -(q as i128)
    } else {
        q as i128
    }
}

/// One CSV line for a processed record, exactly as the result sink prints
/// it.
pub fn format_processed_quote(q: &ProcessedQuote) -> (r: String)
    requires
        renderable(*q),
    ensures
        r@ == spec_line(*q),
{
    let mut line = rfc3339_utc(q.date);
    line.append(",");
    line.append(q.symbol.as_str());
    line.append(",$");
    let close_s = two_dp_string(q.close as i128);
    line.append(close_s.as_str());
    line.append(",");
    let pct = round2_hundredths(q.change_percent.num, q.change_percent.den);
    let pct_s = two_dp_string(pct);
    line.append(pct_s.as_str());
    line.append("%,$");
    let min_s = two_dp_string(q.min as i128);
    line.append(min_s.as_str());
    line.append(",$");
    let max_s = two_dp_string(q.max as i128);
    line.append(max_s.as_str());
    line.append(",$");
    let avg = round_cents_nearest(q.avg_30d.num, q.avg_30d.den);
    let avg_s = two_dp_string(avg);
    line.append(avg_s.as_str());
    proof {
        assert(line@ =~= spec_line(*q));
    }
    line
}

/// Checks the rendering bounds first and renders only inside them; every
/// record the pipeline emits is inside them, so a record from the pipeline
/// always renders.
pub fn render_processed_quote(q: &ProcessedQuote) -> (r: Option<String>)
    ensures
        (r is Some) == renderable(*q),
        r matches Some(s) ==> s@ == spec_line(*q),
{
    let in_bounds = q.change_percent.den >= 1 && q.change_percent.den <= 0xffff_ffff_ffff_ffff
        && q.avg_30d.den >= 1 && q.avg_30d.den <= 0xffff_ffff_ffff_ffff
        && q.change_percent.num > -0x10000000000000000000000000i128
        && q.change_percent.num < 0x10000000000000000000000000i128
        && q.avg_30d.num > -0x10000000000000000000000000i128
        && q.avg_30d.num < 0x10000000000000000000000000i128;
    if in_bounds {
        Some(format_processed_quote(q))
    } else {
        None
    }
}

} // verus!
