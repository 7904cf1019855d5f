//! Fixed-point arithmetic shared by the whole economy.
//!
//! Every stock, cost, yield, growth factor and multiplier is an integer
//! counted in millionths of a unit, so that the simulation is exactly
//! reproducible on every machine.
use vstd::prelude::*;

verus! {

/// One whole unit, in millionths.
pub const UNIT: i64 = 1_000_000;

/// Clamps a mathematical integer into the range of `i64`.
pub open spec fn clamp_i64(x: int) -> int {
    if x > i64::MAX {
        i64::MAX as int
    } else if x < i64::MIN {
        i64::MIN as int
    } else {
        x
    }
}

/// `x * num / den`, rounded toward zero and clamped into `i64`.
pub open spec fn mul_div(x: int, num: int, den: int) -> int {
    if x * num >= 0 {
        clamp_i64(x * num / den)
    } else {
        clamp_i64(-((-(x * num)) / den))
    }
}

/// Geometric growth: `base` multiplied `n` times by `rate` (in millionths),
/// rounding down and saturating after each step.
pub open spec fn curve(base: int, rate: int, n: nat) -> int
    decreases n,
{
    if n == 0 {
        base
    } else {
        mul_div(curve(base, rate, (n - 1) as nat), rate, UNIT as int)
    }
}

/// Narrows a wide intermediate result into `i64`, saturating at both ends.
pub fn saturate(x: i128) -> (r: i64)
    ensures
        r == clamp_i64(x as int),
{
    if x > i64::MAX as i128 {
        i64::MAX
    } else if x < i64::MIN as i128 {
        i64::MIN
    } else {
        x as i64
    }
}

/// Saturating sum of two amounts.
pub fn sat_add(a: i64, b: i64) -> (r: i64)
    ensures
        r == clamp_i64(a + b),
{
    saturate(a as i128 + b as i128)
}

/// Saturating difference of two amounts.
pub fn sat_sub(a: i64, b: i64) -> (r: i64)
    ensures
        r == clamp_i64(a - b),
{
    saturate(a as i128 - b as i128)
}

/// Magnitude of an `i64`, widened.
fn magnitude(x: i64) -> (r: u128)
    ensures
        r == if x >= 0 {
            x as int
        } else {
            -x
        },
        r <= 0x8000_0000_0000_0000u128,
{
    if x >= 0 {
        x as u128
    } else {
        (-(x as i128)) as u128
    }
}

/// `x * num / den`, rounded toward zero and saturating.
pub fn scale_amount(x: i64, num: i64, den: i64) -> (r: i64)
    requires
        den > 0,
    ensures
        r == mul_div(x as int, num as int, den as int),
{
    let a = magnitude(x);
    let b = magnitude(num);
    let negative = (x < 0) != (num < 0);
    assert(a * b <= 0x8000_0000_0000_0000u128 * 0x8000_0000_0000_0000u128) by (nonlinear_arith)
        requires
            a <= 0x8000_0000_0000_0000u128,
            b <= 0x8000_0000_0000_0000u128,
    ;
    let product: u128 = a * b;
    assert(product as int == if negative {
        -(x * num)
    } else {
        x * num
    }) by (nonlinear_arith)
        requires
            product as int == a as int * b as int,
            a as int == if x >= 0 {
                x as int
            } else {
                -x
            },
            b as int == if num >= 0 {
                num as int
            } else {
                -num
            },
            negative == ((x < 0) != (num < 0)),
    ;
    let q: u128 = product / (den as u128);
    assert(q <= product) by (nonlinear_arith)
        requires
            q as int == product as int / den as int,
            den > 0,
    ;
    if negative {
        assert(x * num <= 0) by (nonlinear_arith)
            requires
                (x < 0) != (num < 0),
        ;
        saturate(-(q as i128))
    } else {
        assert(x * num >= 0) by (nonlinear_arith)
            requires
                (x < 0) == (num < 0),
        ;
        saturate(q as i128)
    }
}

/// Applies `count` steps of geometric growth to `base`.
///
/// Stops early once a step no longer changes the value (a zero base, or a
/// value pinned at the top of the range), since every later step is then
/// the identity too.
pub fn grow(base: i64, rate: i64, count: u32) -> (r: i64)
    requires
        base >= 0,
        rate >= UNIT,
    ensures
        r == curve(base as int, rate as int, count as nat),
        r >= base,
{
    let mut value = base;
    let mut k: u32 = 0;
    while k < count
        invariant
            k <= count,
            0 <= base <= value,
            rate >= UNIT,
            value == curve(base as int, rate as int, k as nat),
        decreases count - k,
    {
        let next = scale_amount(value, rate, UNIT);
        proof {
            lemma_growth_step(value as int, rate as int);
        }
        if next == value {
            proof {
                lemma_curve_fixpoint(base as int, rate as int, k as nat, count as nat);
            }
            return value;
        }
        value = next;
        k = k + 1;
    }
    value
}

/// One growth step never shrinks a non-negative value.
pub proof fn lemma_growth_step(x: int, rate: int)
    requires
        0 <= x <= i64::MAX,
        rate >= UNIT,
    ensures
        x <= mul_div(x, rate, UNIT as int) <= i64::MAX,
        mul_div(x, rate, UNIT as int) == clamp_i64(x * rate / (UNIT as int)),
{
    assert(x * rate >= x * (UNIT as int)) by (nonlinear_arith)
        requires
            x >= 0,
            rate >= UNIT,
    ;
    assert(x * (UNIT as int) / (UNIT as int) == x) by (nonlinear_arith);
    assert(x * rate / (UNIT as int) >= x * (UNIT as int) / (UNIT as int)) by (nonlinear_arith)
        requires
            x * rate >= x * (UNIT as int),
    ;
}

/// The curve never falls below its base and stays within `i64`.
pub proof fn lemma_curve_bounds(base: int, rate: int, n: nat)
    requires
        0 <= base <= i64::MAX,
        rate >= UNIT,
    ensures
        base <= curve(base, rate, n) <= i64::MAX,
    decreases n,
{
    if n > 0 {
        lemma_curve_bounds(base, rate, (n - 1) as nat);
        lemma_growth_step(curve(base, rate, (n - 1) as nat), rate);
    }
}

/// Below the top of the range, each step of the curve is the previous value
/// times `rate`, rounded down by less than one millionth of a unit; and it
/// strictly grows once the
/// base is large enough for the growth to show.
pub proof fn lemma_curve_step(base: int, rate: int, n: nat)
    requires
        0 <= base <= i64::MAX,
        rate > UNIT,
        curve(base, rate, n + 1) < i64::MAX,
    ensures
        curve(base, rate, n + 1) * UNIT <= curve(base, rate, n) * rate,
        curve(base, rate, n) * rate < curve(base, rate, n + 1) * UNIT + UNIT,
        base * (rate - UNIT) >= UNIT ==> curve(base, rate, n + 1) > curve(base, rate, n),
{
    lemma_curve_bounds(base, rate, n);
    let c = curve(base, rate, n);
    let q = c * rate / (UNIT as int);
    assert(curve(base, rate, n + 1) == mul_div(c, rate, UNIT as int));
    assert(c * rate >= 0) by (nonlinear_arith)
        requires
            c >= 0,
            rate > 0,
    ;
    assert(q == curve(base, rate, n + 1));
    assert(q * (UNIT as int) <= c * rate < q * (UNIT as int) + UNIT) by (nonlinear_arith)
        requires
            q == c * rate / (UNIT as int),
            c * rate >= 0,
    ;
    if base * (rate - UNIT) >= UNIT {
        assert(c * (rate - UNIT) >= UNIT) by (nonlinear_arith)
            requires
                c >= base,
                base * (rate - UNIT) >= UNIT,
                rate > UNIT,
        ;
        assert(q > c) by (nonlinear_arith)
            requires
                c * (rate - UNIT) >= UNIT,
                c * rate < q * (UNIT as int) + UNIT,
        ;
    }
}

/// A zero base stays zero.
pub proof fn lemma_curve_zero(rate: int, n: nat)
    requires
        rate >= UNIT,
    ensures
        curve(0, rate, n) == 0,
    decreases n,
{
    if n > 0 {
        lemma_curve_zero(rate, (n - 1) as nat);
    }
}

/// One level of a cost curve: `after` is `before` times `rate`, rounded down
/// by less than one millionth of a unit, and a positive value strictly grows.
pub open spec fn grows_by(before: int, after: int, rate: int) -> bool {
    &&& after * UNIT <= before * rate < after * UNIT + UNIT
    &&& before > 0 ==> after > before
}

/// One level of a curve whose positive base is large enough for the growth
/// to show, below the top of the range.
pub proof fn lemma_curve_grows(base: int, rate: int, n: nat)
    requires
        0 <= base <= i64::MAX,
        rate > UNIT,
        base == 0 || base * (rate - UNIT) >= UNIT,
        curve(base, rate, n + 1) < i64::MAX,
    ensures
        grows_by(curve(base, rate, n), curve(base, rate, n + 1), rate),
{
    lemma_curve_step(base, rate, n);
    if base == 0 {
        lemma_curve_zero(rate, n);
    }
}

/// Once a step leaves the curve unchanged, every later step does too.
pub proof fn lemma_curve_fixpoint(base: int, rate: int, k: nat, m: nat)
    requires
        k <= m,
        mul_div(curve(base, rate, k), rate, UNIT as int) == curve(base, rate, k),
    ensures
        curve(base, rate, m) == curve(base, rate, k),
    decreases m - k,
{
    if k < m {
        lemma_curve_fixpoint(base, rate, k, (m - 1) as nat);
    }
}

} // verus!
