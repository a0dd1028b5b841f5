//! Sums, floor averages and maxima of series of readings kept in hundredths,
//! and the series that the analyses read out of stored readings.
use vstd::prelude::*;
use crate::models::ice_detection::IceDetectionData;
use crate::models::vibration::VibrationData;
use crate::models::wind_speed::WindSpeedData;

verus! {

/// The sum of a series.
pub open spec fn seq_sum(s: Seq<i64>) -> int
    decreases s.len(),
{
    if s.len() == 0 {
        0
    } else {
        seq_sum(s.drop_last()) + s.last()
    }
}

/// The largest value of a series, or 0 when every value is below 0 or the
/// series is empty (a maximum taken from a start of 0).
pub open spec fn seq_max0(s: Seq<i64>) -> int
    decreases s.len(),
{
    if s.len() == 0 {
        0
    } else {
        let m = seq_max0(s.drop_last());
        if s.last() > m { s.last() as int } else { m }
    }
}

/// The average of a series rounded down, or 0 for an empty series.
pub open spec fn floor_average(s: Seq<i64>) -> int {
    if s.len() == 0 { 0 } else { seq_sum(s) / (s.len() as int) }
}

/// The average of a series rounded up, or 0 for an empty series.
pub open spec fn ceil_average(s: Seq<i64>) -> int {
    if s.len() == 0 { 0 } else { -((-seq_sum(s)) / (s.len() as int)) }
}

/// Whether the exact mean of a series (0 for an empty series) is above a
/// bound: its sum is above the bound times its length.
pub open spec fn mean_above(s: Seq<i64>, bound: int) -> bool {
    if s.len() == 0 { 0 > bound } else { seq_sum(s) > bound * s.len() }
}

/// The average rounded up is above a whole bound exactly when the exact mean
/// is: comparisons of the rounded-up average with bounds in hundredths are
/// comparisons of the exact mean.
pub proof fn lemma_ceil_average_above(s: Seq<i64>, bound: int)
    ensures
        ceil_average(s) > bound <==> mean_above(s, bound),
{
    if s.len() > 0 {
        let n = s.len() as int;
        let a = seq_sum(s);
        let q = (-a) / n;
        assert(q * n <= -a < q * n + n) by (nonlinear_arith)
            requires n > 0, q == (-a) / n;
        assert(-q > bound <==> a > bound * n) by (nonlinear_arith)
            requires n > 0, q * n <= -a, -a < q * n + n;
    }
}

/// The average rounded up lies within the range of `i64`.
proof fn lemma_ceil_average_range(s: Seq<i64>)
    ensures
        i64::MIN <= ceil_average(s) <= i64::MAX,
{
    if s.len() > 0 {
        lemma_seq_sum_bounds(s);
        let n = s.len() as int;
        let total = seq_sum(s);
        assert(i64::MIN <= -((-total) / n) <= i64::MAX) by (nonlinear_arith)
            requires
                n > 0,
                n * (i64::MIN as int) <= total <= n * (i64::MAX as int);
    }
}

/// Pointwise higher readings never give a lower average rounded up.
pub proof fn lemma_ceil_average_monotone(a: Seq<i64>, b: Seq<i64>)
    requires
        a.len() == b.len(),
        forall|i: int| 0 <= i < a.len() ==> a[i] <= b[i],
    ensures
        ceil_average(a) <= ceil_average(b),
{
    if a.len() > 0 {
        lemma_seq_sum_monotone(a, b);
        let n = a.len() as int;
        let (x, y) = (seq_sum(a), seq_sum(b));
        assert(-((-x) / n) <= -((-y) / n)) by (nonlinear_arith)
            requires
                n > 0,
                x <= y;
    }
}

/// The maximum from 0 is at least 0, at least every value, and is 0 or one of
/// the values.
pub proof fn lemma_seq_max0_bounds(s: Seq<i64>)
    ensures
        seq_max0(s) >= 0,
        forall|i: int| 0 <= i < s.len() ==> s[i] <= seq_max0(s),
        seq_max0(s) == 0 || exists|i: int| 0 <= i < s.len() && s[i] == seq_max0(s),
    decreases s.len(),
{
    if s.len() > 0 {
        let t = s.drop_last();
        lemma_seq_max0_bounds(t);
        assert forall|i: int| 0 <= i < s.len() implies s[i] <= seq_max0(s) by {
            if i < s.len() - 1 {
                assert(s[i] == t[i]);
            }
        }
        if seq_max0(s) != 0 {
            if s.last() > seq_max0(t) {
                assert(s[s.len() - 1] == seq_max0(s));
            } else {
                let j = choose|j: int| 0 <= j < t.len() && t[j] == seq_max0(t);
                assert(s[j] == seq_max0(s));
            }
        }
    }
}

/// A series that is nowhere lower than another of the same length has a sum
/// at least as large.
proof fn lemma_seq_sum_monotone(a: Seq<i64>, b: Seq<i64>)
    requires
        a.len() == b.len(),
        forall|i: int| 0 <= i < a.len() ==> a[i] <= b[i],
    ensures
        seq_sum(a) <= seq_sum(b),
    decreases a.len(),
{
    if a.len() > 0 {
        let (ta, tb) = (a.drop_last(), b.drop_last());
        assert forall|i: int| 0 <= i < ta.len() implies ta[i] <= tb[i] by {
            assert(a[i] <= b[i]);
        }
        lemma_seq_sum_monotone(ta, tb);
        assert(a[a.len() - 1] <= b[b.len() - 1]);
    }
}

/// Pointwise higher readings never give a lower floor average.
pub proof fn lemma_floor_average_monotone(a: Seq<i64>, b: Seq<i64>)
    requires
        a.len() == b.len(),
        forall|i: int| 0 <= i < a.len() ==> a[i] <= b[i],
    ensures
        floor_average(a) <= floor_average(b),
{
    if a.len() > 0 {
        lemma_seq_sum_monotone(a, b);
        let n = a.len() as int;
        let (x, y) = (seq_sum(a), seq_sum(b));
        assert(x / n <= y / n) by (nonlinear_arith)
            requires
                n > 0,
                x <= y;
    }
}

/// Pointwise higher readings never give a lower maximum (from 0).
pub proof fn lemma_seq_max0_monotone(a: Seq<i64>, b: Seq<i64>)
    requires
        a.len() == b.len(),
        forall|i: int| 0 <= i < a.len() ==> a[i] <= b[i],
    ensures
        seq_max0(a) <= seq_max0(b),
    decreases a.len(),
{
    if a.len() > 0 {
        let (ta, tb) = (a.drop_last(), b.drop_last());
        assert forall|i: int| 0 <= i < ta.len() implies ta[i] <= tb[i] by {
            assert(a[i] <= b[i]);
        }
        lemma_seq_max0_monotone(ta, tb);
        assert(a[a.len() - 1] <= b[b.len() - 1]);
    }
}

proof fn lemma_seq_sum_bounds(s: Seq<i64>)
    ensures
        (s.len() as int) * (i64::MIN as int) <= seq_sum(s) <= (s.len() as int) * (i64::MAX as int),
    decreases s.len(),
{
    if s.len() > 0 {
        lemma_seq_sum_bounds(s.drop_last());
        assert((s.len() as int) * (i64::MIN as int) == ((s.len() - 1) as int) * (i64::MIN as int) + i64::MIN)
            by (nonlinear_arith);
        assert((s.len() as int) * (i64::MAX as int) == ((s.len() - 1) as int) * (i64::MAX as int) + i64::MAX)
            by (nonlinear_arith);
    }
}

/// The floor average of a non-empty series lies between its extremes, and so
/// within the range of `i64`.
proof fn lemma_floor_average_range(s: Seq<i64>)
    ensures
        i64::MIN <= floor_average(s) <= i64::MAX,
{
    if s.len() > 0 {
        lemma_seq_sum_bounds(s);
        let n = s.len() as int;
        let total = seq_sum(s);
        assert(i64::MIN <= total / n <= i64::MAX) by (nonlinear_arith)
            requires
                n > 0,
                n * (i64::MIN as int) <= total <= n * (i64::MAX as int);
    }
}

/// Sums a series.
pub fn sum_of(v: &Vec<i64>) -> (r: i128)
    ensures
        r as int == seq_sum(v@),
{
    let mut total: i128 = 0;
    let mut i: usize = 0;
    while i < v.len()
        invariant
            i <= v.len(),
            total as int == seq_sum(v@.subrange(0, i as int)),
            (i as int) * (i64::MIN as int) <= total <= (i as int) * (i64::MAX as int),
        decreases v.len() - i,
    {
        assert(v@.subrange(0, (i + 1) as int).drop_last() =~= v@.subrange(0, i as int));
        assert((i as int) * (i64::MAX as int) + i64::MAX <= i128::MAX) by (nonlinear_arith)
            requires i < 0x1_0000_0000_0000_0000int;
        assert((i as int) * (i64::MIN as int) + i64::MIN >= i128::MIN) by (nonlinear_arith)
            requires i < 0x1_0000_0000_0000_0000int;
        total = total + v[i] as i128;
        assert(((i + 1) as int) * (i64::MAX as int) == (i as int) * (i64::MAX as int) + i64::MAX)
            by (nonlinear_arith);
        assert(((i + 1) as int) * (i64::MIN as int) == (i as int) * (i64::MIN as int) + i64::MIN)
            by (nonlinear_arith);
        i = i + 1;
    }
    assert(v@.subrange(0, i as int) =~= v@);
    total
}

/// Division rounded down (towards negative infinity), as spec `/` divides.
pub fn floor_div(a: i128, b: i128) -> (r: i128)
    requires
        b > 0,
    ensures
        r as int == (a as int) / (b as int),
{
    let q: i128 = a / b;
    let ghost tq: int = if a >= 0 { (a as int) / (b as int) } else { -((-(a as int)) / (b as int)) };
    assert(q == tq);
    assert(i128::MIN <= tq * b <= i128::MAX && (tq * b > a ==> tq - 1 >= i128::MIN)) by (nonlinear_arith)
        requires
            b > 0,
            tq == (if a >= 0 { (a as int) / (b as int) } else { -((-(a as int)) / (b as int)) }),
            i128::MIN <= a <= i128::MAX,
    {
    }
    let back: i128 = q * b;
    let fq: i128 = if back > a { q - 1 } else { q };
    assert(fq as int == (a as int) / (b as int)) by (nonlinear_arith)
        requires
            b > 0,
            q == (if a >= 0 { (a as int) / (b as int) } else { -((-(a as int)) / (b as int)) }),
            back == q * b,
            fq == (if back > a { q - 1 } else { q as int }),
    {
    }
    fq
}

/// The average of a series rounded down, 0 for an empty series.
pub fn average_of(v: &Vec<i64>) -> (r: i64)
    ensures
        r as int == floor_average(v@),
{
    if v.len() == 0 {
        return 0;
    }
    let total = sum_of(v);
    let n: i128 = v.len() as i128;
    proof { lemma_floor_average_range(v@); lemma_seq_sum_bounds(v@); }
    let fq: i128 = floor_div(total, n);
    fq as i64
}

/// Averages a series, rounding up (0 for an empty series).
pub fn ceil_average_of(v: &Vec<i64>) -> (r: i64)
    ensures
        r as int == ceil_average(v@),
{
    if v.len() == 0 {
        return 0;
    }
    let total = sum_of(v);
    let n: i128 = v.len() as i128;
    proof {
        lemma_ceil_average_range(v@);
        lemma_seq_sum_bounds(v@);
        assert((v@.len() as int) * (i64::MAX as int) < 0x7fff_ffff_ffff_ffff_ffff_ffff_ffff_ffffint) by (nonlinear_arith)
            requires v@.len() < 0x1_0000_0000_0000_0000int;
        assert((v@.len() as int) * (i64::MIN as int) > -0x7fff_ffff_ffff_ffff_ffff_ffff_ffff_ffffint) by (nonlinear_arith)
            requires v@.len() < 0x1_0000_0000_0000_0000int;
    }
    let fq: i128 = floor_div(-total, n);
    (-fq) as i64
}

/// The largest value of a series, from a start of 0.
pub fn max_of(v: &Vec<i64>) -> (r: i64)
    ensures
        r as int == seq_max0(v@),
{
    let mut m: i64 = 0;
    let mut i: usize = 0;
    while i < v.len()
        invariant
            i <= v.len(),
            m as int == seq_max0(v@.subrange(0, i as int)),
        decreases v.len() - i,
    {
        assert(v@.subrange(0, (i + 1) as int).drop_last() =~= v@.subrange(0, i as int));
        if v[i] > m {
            m = v[i];
        }
        i = i + 1;
    }
    assert(v@.subrange(0, i as int) =~= v@);
    m
}

/// The ice thicknesses of a series of ice readings.
pub open spec fn ice_thickness_series(data: Seq<IceDetectionData>) -> Seq<i64> {
    data.map_values(|d: IceDetectionData| d.ice_thickness_mm)
}

/// The velocities of a series of vibration readings.
pub open spec fn velocity_series(data: Seq<VibrationData>) -> Seq<i64> {
    data.map_values(|d: VibrationData| d.velocity_mm_s)
}

/// The wind speeds of a series of wind readings.
pub open spec fn wind_speed_series(data: Seq<WindSpeedData>) -> Seq<i64> {
    data.map_values(|d: WindSpeedData| d.wind_speed_ms)
}

/// Reads the ice thicknesses out of ice readings.
pub fn ice_thicknesses(data: &Vec<IceDetectionData>) -> (r: Vec<i64>)
    ensures
        r@ == ice_thickness_series(data@),
{
    let mut r: Vec<i64> = Vec::new();
    let mut i: usize = 0;
    while i < data.len()
        invariant
            i <= data.len(),
            r@ == ice_thickness_series(data@.subrange(0, i as int)),
        decreases data.len() - i,
    {
        r.push(data[i].ice_thickness_mm);
        i = i + 1;
        assert(r@ =~= ice_thickness_series(data@.subrange(0, i as int)));
    }
    assert(data@.subrange(0, i as int) =~= data@);
    r
}

/// Reads the velocities out of vibration readings.
pub fn velocities(data: &Vec<VibrationData>) -> (r: Vec<i64>)
    ensures
        r@ == velocity_series(data@),
{
    let mut r: Vec<i64> = Vec::new();
    let mut i: usize = 0;
    while i < data.len()
        invariant
            i <= data.len(),
            r@ == velocity_series(data@.subrange(0, i as int)),
        decreases data.len() - i,
    {
        r.push(data[i].velocity_mm_s);
        i = i + 1;
        assert(r@ =~= velocity_series(data@.subrange(0, i as int)));
    }
    assert(data@.subrange(0, i as int) =~= data@);
    r
}

/// Reads the wind speeds out of wind readings.
pub fn wind_speeds(data: &Vec<WindSpeedData>) -> (r: Vec<i64>)
    ensures
        r@ == wind_speed_series(data@),
{
    let mut r: Vec<i64> = Vec::new();
    let mut i: usize = 0;
    while i < data.len()
        invariant
            i <= data.len(),
            r@ == wind_speed_series(data@.subrange(0, i as int)),
        decreases data.len() - i,
    {
        r.push(data[i].wind_speed_ms);
        i = i + 1;
        assert(r@ =~= wind_speed_series(data@.subrange(0, i as int)));
    }
    assert(data@.subrange(0, i as int) =~= data@);
    r
}

/// `x` limited to the range of `i64`.
pub open spec fn clamp_i64(x: int) -> int {
    if x < i64::MIN { i64::MIN as int } else if x > i64::MAX { i64::MAX as int } else { x }
}

/// Limits a value to the range of `i64`.
pub fn clamp_to_i64(x: i128) -> (r: i64)
    ensures
        r as int == clamp_i64(x as int),
{
    if x < i64::MIN as i128 {
        i64::MIN
    } else if x > i64::MAX as i128 {
        i64::MAX
    } else {
        x as i64
    }
}

/// The smallest of `start` and the values of a series.
pub open spec fn seq_min_from(s: Seq<i64>, start: int) -> int
    decreases s.len(),
{
    if s.len() == 0 {
        start
    } else {
        let m = seq_min_from(s.drop_last(), start);
        if s.last() < m { s.last() as int } else { m }
    }
}

/// The largest of `start` and the values of a series.
pub open spec fn seq_max_from(s: Seq<i64>, start: int) -> int
    decreases s.len(),
{
    if s.len() == 0 {
        start
    } else {
        let m = seq_max_from(s.drop_last(), start);
        if s.last() > m { s.last() as int } else { m }
    }
}

/// The smallest of `start` and the values of a series.
pub fn min_from(v: &Vec<i64>, start: i64) -> (r: i64)
    ensures
        r as int == seq_min_from(v@, start as int),
{
    let mut m: i64 = start;
    let mut i: usize = 0;
    while i < v.len()
        invariant
            i <= v.len(),
            m as int == seq_min_from(v@.subrange(0, i as int), start as int),
        decreases v.len() - i,
    {
        assert(v@.subrange(0, (i + 1) as int).drop_last() =~= v@.subrange(0, i as int));
        if v[i] < m {
            m = v[i];
        }
        i = i + 1;
    }
    assert(v@.subrange(0, i as int) =~= v@);
    m
}

/// The largest of `start` and the values of a series.
pub fn max_from(v: &Vec<i64>, start: i64) -> (r: i64)
    ensures
        r as int == seq_max_from(v@, start as int),
{
    let mut m: i64 = start;
    let mut i: usize = 0;
    while i < v.len()
        invariant
            i <= v.len(),
            m as int == seq_max_from(v@.subrange(0, i as int), start as int),
        decreases v.len() - i,
    {
        assert(v@.subrange(0, (i + 1) as int).drop_last() =~= v@.subrange(0, i as int));
        if v[i] > m {
            m = v[i];
        }
        i = i + 1;
    }
    assert(v@.subrange(0, i as int) =~= v@);
    m
}

/// The number of values of a series above 0.
pub open spec fn count_positive(s: Seq<i64>) -> nat
    decreases s.len(),
{
    if s.len() == 0 {
        0
    } else {
        count_positive(s.drop_last()) + if s.last() > 0 { 1nat } else { 0nat }
    }
}

/// Counts the values of a series above 0.
pub fn count_positive_of(v: &Vec<i64>) -> (r: usize)
    ensures
        r as nat == count_positive(v@),
{
    let mut n: usize = 0;
    let mut i: usize = 0;
    while i < v.len()
        invariant
            i <= v.len(),
            n <= i,
            n as nat == count_positive(v@.subrange(0, i as int)),
        decreases v.len() - i,
    {
        assert(v@.subrange(0, (i + 1) as int).drop_last() =~= v@.subrange(0, i as int));
        if v[i] > 0 {
            n = n + 1;
        }
        i = i + 1;
    }
    assert(v@.subrange(0, i as int) =~= v@);
    n
}

} // verus!
