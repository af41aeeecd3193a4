//! The statistics engine: minimum, maximum, fixed-window moving average and
//! percent/absolute change over a price series.
//!
//! A price is an `i64` in cents. A derived value that need not be a whole
//! number of cents is an exact rational [`Ratio`].

use vstd::prelude::*;

use crate::messages::{CalcQuoteData, CalculatedData};

verus! {

/// The fixed moving-average window: the engine reports the mean of each
/// contiguous run of this many observations.
pub const SMA_WINDOW: usize = 30;

/// An exact rational number `num / den`, with `den >= 1`.
#[derive(Clone, Copy, Debug, PartialEq, Eq, Structural)]
pub struct Ratio {
    pub num: i128,
    pub den: i128,
}

impl Ratio {
    pub open spec fn wf(self) -> bool {
        self.den >= 1
    }
}

/// The smallest element of a non-empty sequence.
pub open spec fn seq_min(s: Seq<i64>) -> int
    recommends
        s.len() > 0,
    decreases s.len(),
{
    if s.len() <= 1 {
        s[0] as int
    } else if s.last() as int <= seq_min(s.drop_last()) {
        s.last() as int
    } else {
        seq_min(s.drop_last())
    }
}

/// The largest element of a non-empty sequence.
pub open spec fn seq_max(s: Seq<i64>) -> int
    recommends
        s.len() > 0,
    decreases s.len(),
{
    if s.len() <= 1 {
        s[0] as int
    } else if s.last() as int >= seq_max(s.drop_last()) {
        s.last() as int
    } else {
        seq_max(s.drop_last())
    }
}

/// The sum of a sequence.
pub open spec fn seq_sum(s: Seq<i64>) -> int
    decreases s.len(),
{
    if s.len() == 0 {
        0
    } else {
        seq_sum(s.drop_last()) + s.last()
    }
}

/// `min(S) <= x <= max(S)` for every `x` in a non-empty series `S`, and
/// both bounds are elements of `S`.
pub proof fn lemma_min_max_bound(s: Seq<i64>)
    requires
        s.len() > 0,
    ensures
        forall|i: int| 0 <= i < s.len() ==> seq_min(s) <= #[trigger] s[i] <= seq_max(s),
        exists|i: int| 0 <= i < s.len() && s[i] == seq_min(s),
        exists|i: int| 0 <= i < s.len() && s[i] == seq_max(s),
    decreases s.len(),
{
    if s.len() == 1 {
        assert(s[0] == seq_min(s));
        assert(s[0] == seq_max(s));
    } else {
        lemma_min_max_bound(s.drop_last());
        assert forall|i: int| 0 <= i < s.len() implies seq_min(s) <= #[trigger] s[i] <= seq_max(s) by {
            if i < s.len() - 1 {
                assert(s.drop_last()[i] == s[i]);
            }
        }
        assert(s[s.len() - 1] == s.last());
        if s.last() as int <= seq_min(s.drop_last()) {
            assert(s[s.len() - 1] == seq_min(s));
        } else {
            let j = choose|j: int|
                0 <= j < s.drop_last().len() && s.drop_last()[j] == seq_min(s.drop_last());
            assert(s[j] == seq_min(s));
        }
        if s.last() as int >= seq_max(s.drop_last()) {
            assert(s[s.len() - 1] == seq_max(s));
        } else {
            let k = choose|k: int|
                0 <= k < s.drop_last().len() && s.drop_last()[k] == seq_max(s.drop_last());
            assert(s[k] == seq_max(s));
        }
    }
}

/// The sum of a sequence is bounded by its length times the extreme values.
pub proof fn lemma_seq_sum_bound(s: Seq<i64>)
    ensures
        -(s.len() * 0x8000_0000_0000_0000) <= seq_sum(s) <= s.len() * 0x7fff_ffff_ffff_ffff,
    decreases s.len(),
{
    if s.len() > 0 {
        lemma_seq_sum_bound(s.drop_last());
    }
}

/// How many full windows of length `n` fit in a series of length `len`.
pub open spec fn window_count(len: int, n: int) -> int {
    if len >= n {
        len - n + 1
    } else {
        0
    }
}

/// The sum of the window of length `n` that starts at index `i`.
pub open spec fn window_sum(s: Seq<i64>, i: int, n: int) -> int {
    seq_sum(s.subrange(i, i + n))
}

/// `v` is the moving-average sequence of `s` for window length `n`: one
/// exact mean `window_sum / n` per contiguous window, in arrival order.
pub open spec fn sma_ok(v: Seq<Ratio>, s: Seq<i64>, n: int) -> bool {
    &&& v.len() == window_count(s.len() as int, n)
    &&& forall|i: int|
        0 <= i < v.len() ==> (#[trigger] v[i]).num == window_sum(s, i, n) && v[i].den == n
}

/// The absolute change over a non-empty series: last minus first.
pub open spec fn spec_abs_change(s: Seq<i64>) -> int
    recommends
        s.len() > 0,
{
    s.last() - s[0]
}

/// The percent change over a non-empty series of cent prices:
/// `absoluteChange / denom * 100`, where `denom` is the first price unless
/// that price is zero, in which case the documented substitute is one whole
/// currency unit. With prices in cents the two cases reduce to the
/// rationals below.
pub open spec fn spec_percent_change(s: Seq<i64>) -> Ratio
    recommends
        s.len() > 0,
{
    if s[0] == 0 {
        Ratio { num: spec_abs_change(s) as i128, den: 1 }
    } else if s[0] > 0 {
        Ratio { num: (spec_abs_change(s) * 100) as i128, den: s[0] as i128 }
    } else {
        Ratio { num: (-(spec_abs_change(s) * 100)) as i128, den: (-(s[0] as int)) as i128 }
    }
}

/// The stateless worker of the pool: computes all four statistics of one
/// request. The pool and its sizing live in the surrounding binary; each
/// worker calls into these functions.
pub struct Calculator;

impl Calculator {
    /// The smallest element, or `None` for an empty series.
    pub fn min(data: &Vec<i64>) -> (r: Option<i64>)
        ensures
            data@.len() == 0 ==> r is None,
            data@.len() > 0 ==> (r matches Some(m) && m == seq_min(data@)),
    {
        if data.len() == 0 {
            None
        } else {
            let mut acc: i64 = data[0];
            let mut i: usize = 1;
            while i < data.len()
                invariant
                    1 <= i <= data@.len(),
                    acc == seq_min(data@.take(i as int)),
                decreases data@.len() - i,
            {
                let v = data[i];
                proof {
                    assert(data@.take(i + 1).drop_last() =~= data@.take(i as int));
                    assert(data@.take(i + 1).last() == data@[i as int]);
                }
                if v < acc {
                    acc = v;
                }
                i = i + 1;
            }
            proof {
                assert(data@.take(data@.len() as int) =~= data@);
            }
            Some(acc)
        }
    }

    /// The largest element, or `None` for an empty series.
    pub fn max(data: &Vec<i64>) -> (r: Option<i64>)
        ensures
            data@.len() == 0 ==> r is None,
            data@.len() > 0 ==> (r matches Some(m) && m == seq_max(data@)),
    {
        if data.len() == 0 {
            None
        } else {
            let mut acc: i64 = data[0];
            let mut i: usize = 1;
            while i < data.len()
                invariant
                    1 <= i <= data@.len(),
                    acc == seq_max(data@.take(i as int)),
                decreases data@.len() - i,
            {
                let v = data[i];
                proof {
                    assert(data@.take(i + 1).drop_last() =~= data@.take(i as int));
                    assert(data@.take(i + 1).last() == data@[i as int]);
                }
                if v > acc {
                    acc = v;
                }
                i = i + 1;
            }
            proof {
                assert(data@.take(data@.len() as int) =~= data@);
            }
            Some(acc)
        }
    }

    /// The exact mean of each contiguous window of length `n`, in arrival
    /// order; `None` if the series is empty or the window length is not
    /// positive; the empty sequence if the series is shorter than the
    /// window.
    pub fn n_window_sma(n: usize, data: &Vec<i64>) -> (r: Option<Vec<Ratio>>)
        ensures
            (r is None) <==> (data@.len() == 0 || n < 1),
            (data@.len() > 0 && n >= 1) ==> (r matches Some(v) && sma_ok(v@, data@, n as int)),
    {
        if data.len() == 0 || n < 1 {
            return None;
        }
        let len = data.len();
        let count: usize = if len >= n {
            (len - n) + 1
        } else {
            0
        };
        let mut v: Vec<Ratio> = Vec::new();
        let mut i: usize = 0;
        while i < count
            invariant
                1 <= n,
                len == data@.len(),
                count == window_count(len as int, n as int),
                i <= count,
                v@.len() == i as int,
                forall|k: int|
                    0 <= k < i ==> (#[trigger] v@[k]).num == window_sum(data@, k, n as int)
                        && v@[k].den == n as int,
            decreases count - i,
        {
            let mut acc: i128 = 0;
            let mut j: usize = 0;
            while j < n
                invariant
                    1 <= n,
                    i + n <= len,
                    len == data@.len(),
                    j <= n,
                    acc == seq_sum(data@.subrange(i as int, i + j)),
                    -(j as int * 0x8000_0000_0000_0000) <= acc,
                    acc <= j as int * 0x7fff_ffff_ffff_ffff,
                decreases n - j,
            {
                proof {
                    assert(data@.subrange(i as int, i + j + 1).drop_last() =~= data@.subrange(
                        i as int,
                        i + j,
                    ));
                    assert(data@.subrange(i as int, i + j + 1).last() == data@[i + j]);
                }
                acc = acc + data[i + j] as i128;
                j = j + 1;
            }
            v.push(Ratio { num: acc, den: n as i128 });
            i = i + 1;
        }
        Some(v)
    }

    /// The absolute change (last minus first) and the percent change with
    /// the documented zero-guard; `None` for an empty series.
    pub fn price_diff(data: &Vec<i64>) -> (r: Option<(Ratio, i128)>)
        ensures
            (r is None) <==> data@.len() == 0,
            data@.len() > 0 ==> (r matches Some(p) && p.0 == spec_percent_change(data@) && p.1
                == spec_abs_change(data@) && p.0.wf()),
    {
        if data.len() == 0 {
            return None;
        }
        let first = data[0];
        let last = data[data.len() - 1];
        let abs: i128 = last as i128 - first as i128;
        let percent = if first == 0 {
            Ratio { num: abs, den: 1 }
        } else if first > 0 {
            Ratio { num: abs * 100, den: first as i128 }
        } else {
            Ratio { num: -(abs * 100), den: -(first as i128) }
        };
        Some((percent, abs))
    }

    /// One computation request: all four statistics of the same series, each
    /// absent exactly where its rule above says so.
    pub fn handle(msg: CalcQuoteData) -> (r: CalculatedData)
        ensures
            msg.0@.len() == 0 ==> r == (CalculatedData {
                min: None,
                max: None,
                sma: None,
                percent_diff: None,
                absolute_diff: None,
            }),
            msg.0@.len() > 0 ==> {
                &&& r.min matches Some(m) && m == seq_min(msg.0@)
                &&& r.max matches Some(m) && m == seq_max(msg.0@)
                &&& r.sma matches Some(v) && sma_ok(v@, msg.0@, SMA_WINDOW as int)
                &&& r.percent_diff == Some(spec_percent_change(msg.0@))
                &&& r.absolute_diff matches Some(a) && a == spec_abs_change(msg.0@)
            },
    {
        let data = msg.0;
        let min = Self::min(&data);
        let max = Self::max(&data);
        let sma = Self::n_window_sma(SMA_WINDOW, &data);
        let (p_diff, a_diff) = if let Some(tuple) = Self::price_diff(&data) {
            (Some(tuple.0), Some(tuple.1))
        } else {
            (None, None)
        };
        CalculatedData::new(min, max, sma, p_diff, a_diff)
    }
}

} // verus!
