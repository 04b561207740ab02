//! Integer geometry shared by the patterns: points, angle constants and
//! the interpolation that spreads bullets evenly.

use vstd::prelude::*;

verus! {

/// Half a turn, in microradians.
pub const PI: i32 = 3_141_593;

/// A quarter turn, in microradians.
pub const HALF_PI: i32 = 1_570_796;

/// A full turn, in microradians.
pub const TAU: i32 = 6_283_185;

/// The direction straight down the screen, in microradians.
pub const DOWN: i32 = -1_570_796;

/// A position on the playfield, in thousandths of a unit.
#[derive(Clone, Copy, Debug, PartialEq, Eq, Structural)]
pub struct Point {
    pub x: i32,
    pub y: i32,
}

/// Number of nanoseconds in a second.
pub const NANOS_PER_SECOND: u64 = 1_000_000_000;

/// The quotient `n / d` rounded toward zero, for a positive `d`.
pub open spec fn toward_zero(n: int, d: int) -> int {
    if n >= 0 {
        n / d
    } else {
        -((-n) / d)
    }
}

/// The nearest value to `value` that a 64-bit signed integer can hold.
pub open spec fn clamp_i64(value: int) -> int {
    if value < i64::MIN {
        i64::MIN as int
    } else if value > i64::MAX {
        i64::MAX as int
    } else {
        value
    }
}

/// What a rate of `rate` per second comes to over `delta` nanoseconds,
/// rounded toward zero, as far as a 64-bit integer goes.
pub open spec fn over_time(rate: int, delta: int) -> int {
    clamp_i64(toward_zero(rate * delta, NANOS_PER_SECOND as int))
}

/// The largest whole number whose square is at most `n`.
pub open spec fn is_sqrt(n: int, root: int) -> bool {
    0 <= root && root * root <= n < (root + 1) * (root + 1)
}

/// Square of the distance between two points.
pub open spec fn distance_squared(a: Point, b: Point) -> int {
    (b.x - a.x) * (b.x - a.x) + (b.y - a.y) * (b.y - a.y)
}

/// The value `num / den` of the way from `from` to `to`, rounded down.
/// With nothing to divide by, `from`.
pub open spec fn lerp(from: int, to: int, num: int, den: int) -> int {
    if den > 0 {
        from + ((to - from) * num) / den
    } else {
        from
    }
}

/// Interpolation is exact at both ends.
pub proof fn lemma_lerp_endpoints(from: int, to: int, den: int)
    requires
        den > 0,
    ensures
        lerp(from, to, 0, den) == from,
        lerp(from, to, den, den) == to,
{
    assert(((to - from) * 0) / den == 0) by (nonlinear_arith)
        requires
            den > 0,
    ;
    assert(((to - from) * den) / den == to - from) by (nonlinear_arith)
        requires
            den > 0,
    ;
}

/// Interpolation stays between its ends.
pub proof fn lemma_lerp_between(from: int, to: int, num: int, den: int)
    requires
        0 <= num <= den,
    ensures
        from <= to ==> from <= lerp(from, to, num, den) <= to,
        to <= from ==> to <= lerp(from, to, num, den) <= from,
{
    if den > 0 {
        let span = to - from;
        let q = (span * num) / den;
        assert(q * den <= span * num < q * den + den) by (nonlinear_arith)
            requires
                den > 0,
                q == (span * num) / den,
        ;
        if span >= 0 {
            assert(0 <= q <= span) by (nonlinear_arith)
                requires
                    den > 0,
                    0 <= num <= den,
                    span >= 0,
                    q * den <= span * num < q * den + den,
            ;
        } else {
            assert(span <= q <= 0) by (nonlinear_arith)
                requires
                    den > 0,
                    0 <= num <= den,
                    span < 0,
                    q * den <= span * num < q * den + den,
            ;
        }
    }
}

/// Interpolation moves evenly: each step is the whole-number part of the
/// same share of the span, so neighbours differ by the rounded-down or
/// rounded-up share.
pub proof fn lemma_lerp_steps_even(from: int, to: int, num: int, den: int)
    requires
        den > 0,
        0 <= num < den,
        from <= to,
    ensures
        (to - from) / den <= lerp(from, to, num + 1, den) - lerp(from, to, num, den) <= (to - from)
            / den + 1,
{
    let span = to - from;
    let a = (span * num) / den;
    let b = (span * (num + 1)) / den;
    let s = span / den;
    assert(a * den <= span * num < a * den + den) by (nonlinear_arith)
        requires
            den > 0,
            a == (span * num) / den,
    ;
    assert(b * den <= span * (num + 1) < b * den + den) by (nonlinear_arith)
        requires
            den > 0,
            b == (span * (num + 1)) / den,
    ;
    assert(s * den <= span < s * den + den) by (nonlinear_arith)
        requires
            den > 0,
            s == span / den,
    ;
    assert(span * (num + 1) == span * num + span) by (nonlinear_arith);
    assert(s <= b - a <= s + 1) by (nonlinear_arith)
        requires
            den > 0,
            a * den <= span * num < a * den + den,
            b * den <= span * num + span < b * den + den,
            s * den <= span < s * den + den,
    ;
}

/// Computes [`lerp`] on machine integers.
pub fn interpolate(from: i32, to: i32, num: usize, den: usize) -> (r: i32)
    requires
        num <= den,
    ensures
        r == lerp(from as int, to as int, num as int, den as int),
{
    if den == 0 {
        return from;
    }
    let span: i128 = to as i128 - from as i128;
    let n: i128 = num as i128;
    let d: i128 = den as i128;
    assert(-0x1_0000_0000 * 0x1_0000_0000_0000_0000 <= span * n <= 0x1_0000_0000
        * 0x1_0000_0000_0000_0000) by (nonlinear_arith)
        requires
            -0x1_0000_0000 <= span <= 0x1_0000_0000,
            0 <= n <= 0x1_0000_0000_0000_0000,
    ;
    let product: i128 = span * n;
    let q: i128 = floor_div(product, d);
    proof {
        lemma_lerp_between(from as int, to as int, num as int, den as int);
    }
    (from as i128 + q) as i32
}

/// Computes [`over_time`] on machine integers.
pub fn rate_over_time(rate: i32, delta: u64) -> (amount: i64)
    ensures
        amount == over_time(rate as int, delta as int),
        rate >= 0 ==> amount >= 0,
        rate <= 0 ==> amount <= 0,
        delta == 0 ==> amount == 0,
{
    let magnitude: i128 = if rate >= 0 {
        rate as i128
    } else {
        -(rate as i128)
    };
    assert(0 <= magnitude * (delta as i128) <= 0x8000_0000 * 0x1_0000_0000_0000_0000)
        by (nonlinear_arith)
        requires
            0 <= magnitude <= 0x8000_0000,
            0 <= delta <= 0x1_0000_0000_0000_0000,
    ;
    let product: i128 = magnitude * (delta as i128);
    let whole: i128 = product / (NANOS_PER_SECOND as i128);
    assert(rate * delta == if rate >= 0 {
        product as int
    } else {
        -(product as int)
    }) by (nonlinear_arith)
        requires
            product == magnitude * delta,
            magnitude == if rate >= 0 {
                rate as int
            } else {
                -(rate as int)
            },
    ;
    assert(product == 0 ==> whole == 0);
    assert(delta == 0 || rate == 0 ==> product == 0) by (nonlinear_arith)
        requires
            product == magnitude * delta,
            rate == 0 ==> magnitude == 0,
    ;
    let signed: i128 = if rate >= 0 {
        whole
    } else {
        -whole
    };
    if signed > i64::MAX as i128 {
        i64::MAX
    } else if signed < i64::MIN as i128 {
        i64::MIN
    } else {
        signed as i64
    }
}

/// The whole-number square root of `n`.
fn integer_sqrt(n: u128) -> (root: u64)
    requires
        n < 0x1_0000_0000_0000_0000_0000,
    ensures
        is_sqrt(n as int, root as int),
{
    let mut low: u128 = 0;
    let mut high: u128 = 0x100_0000_0000;
    assert(0x100_0000_0000 * 0x100_0000_0000 == 0x1_0000_0000_0000_0000_0000) by (nonlinear_arith);
    while high - low > 1
        invariant
            low < high <= 0x100_0000_0000,
            low * low <= n,
            n < high * high,
        decreases high - low,
    {
        let middle: u128 = low + (high - low) / 2;
        assert(middle * middle <= 0x100_0000_0000 * 0x100_0000_0000) by (nonlinear_arith)
            requires
                0 <= middle <= 0x100_0000_0000,
        ;
        if middle * middle <= n {
            low = middle;
        } else {
            high = middle;
        }
    }
    low as u64
}

/// The distance between two points, rounded down.
pub fn distance(a: Point, b: Point) -> (length: i64)
    ensures
        is_sqrt(distance_squared(a, b), length as int),
        0 <= length <= 0x2_0000_0000,
{
    let dx: i128 = b.x as i128 - a.x as i128;
    let dy: i128 = b.y as i128 - a.y as i128;
    assert(0 <= dx * dx <= 0x1_0000_0000 * 0x1_0000_0000) by (nonlinear_arith)
        requires
            -0x1_0000_0000 <= dx <= 0x1_0000_0000,
    ;
    assert(0 <= dy * dy <= 0x1_0000_0000 * 0x1_0000_0000) by (nonlinear_arith)
        requires
            -0x1_0000_0000 <= dy <= 0x1_0000_0000,
    ;
    let squared: i128 = dx * dx + dy * dy;
    let root: u64 = integer_sqrt(squared as u128);
    assert(root <= 0x2_0000_0000) by (nonlinear_arith)
        requires
            root * root <= squared,
            squared <= 2 * (0x1_0000_0000 * 0x1_0000_0000),
            root >= 0,
    ;
    root as i64
}

/// Division that rounds down, for a positive divisor.
fn floor_div(n: i128, d: i128) -> (q: i128)
    requires
        d > 0,
        -0x1_0000_0000_0000_0000_0000_0000 <= n <= 0x1_0000_0000_0000_0000_0000_0000,
        d <= 0x1_0000_0000_0000_0000_0000_0000,
    ensures
        q == n / d,
{
    if n >= 0 {
        n / d
    } else {
        let m: i128 = -n;
        let c: i128 = (m + (d - 1)) / d;
        assert(-c == n / d) by (nonlinear_arith)
            requires
                d > 0,
                m == -n,
                c == (m + (d - 1)) / (d as int),
        ;
        -c
    }
}

} // verus!
