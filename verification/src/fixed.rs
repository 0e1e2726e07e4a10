//! Fixed-point quantities: every length, speed, acceleration and time span is
//! a whole number of millionths of its unit, held in an `i64`.
//!
//! Products are cut toward zero, so that a quantity and its negation always
//! scale to opposite results, and sums stop at [`LIMIT`] instead of wrapping.

use vstd::prelude::*;

verus! {

/// How many raw steps make one unit (one pixel, one second).
pub const SCALE: i64 = 1_000_000;

/// The largest magnitude a quantity can take; results beyond it stop here.
pub const LIMIT: i64 = 9_223_372_036_854_775_807;

/// Whether `v` lies in the symmetric range that quantities are kept in.
pub open spec fn in_range(v: int) -> bool {
    -LIMIT <= v <= LIMIT
}

/// The value of the range nearest to `v`.
pub open spec fn clamp(v: int) -> int {
    if v > LIMIT {
        LIMIT as int
    } else if v < -LIMIT {
        -LIMIT
    } else {
        v
    }
}

/// The fixed-point product of `a` and `b`: `a * b / SCALE`, cut toward zero.
pub open spec fn scaled(a: int, b: int) -> int {
    let p = a * b;
    if p >= 0 {
        p / (SCALE as int)
    } else {
        -((-p) / (SCALE as int))
    }
}

/// Where a quantity `base` stands after changing at `rate` for `dt`.
pub open spec fn drifted(base: int, rate: int, dt: int) -> int {
    clamp(base + scaled(rate, dt))
}

/// The speed with which a body leaves a wall that it met at `speed`, keeping
/// the fraction `restitution` of it.
pub open spec fn rebounded(speed: int, restitution: int) -> int {
    clamp(-scaled(speed, restitution))
}

/// Brings a wide intermediate result back into the range of quantities.
pub fn saturate(v: i128) -> (r: i64)
    ensures
        r == clamp(v as int),
{
    if v > LIMIT as i128 {
        LIMIT
    } else if v < -(LIMIT as i128) {
        -LIMIT
    } else {
        v as i64
    }
}

/// Multiplies two fixed-point quantities, the second of them never negative.
/// The result is exact up to the cut toward zero and is not yet saturated; it
/// is small enough to take part in a further sum of wide values.
pub fn scale(a: i64, b: u64) -> (q: i128)
    ensures
        q == scaled(a as int, b as int),
        -0x1000_0000_0000_0000_0000_0000_0000 <= q <= 0x1000_0000_0000_0000_0000_0000_0000,
{
    let wide_a: i128 = a as i128;
    let wide_b: i128 = b as i128;
    assert(-0x8000_0000_0000_0000 * 0xffff_ffff_ffff_ffff <= wide_a * wide_b
        <= 0x7fff_ffff_ffff_ffff * 0xffff_ffff_ffff_ffff) by (nonlinear_arith)
        requires
            -0x8000_0000_0000_0000 <= wide_a <= 0x7fff_ffff_ffff_ffff,
            0 <= wide_b <= 0xffff_ffff_ffff_ffff,
    ;
    let p: i128 = wide_a * wide_b;
    if p >= 0 {
        p / (SCALE as i128)
    } else {
        -((-p) / (SCALE as i128))
    }
}

/// Advances `base` by `rate` over the time span `dt`.
pub fn drift(base: i64, rate: i64, dt: u64) -> (r: i64)
    ensures
        r == drifted(base as int, rate as int, dt as int),
{
    let step: i128 = scale(rate, dt);
    saturate(base as i128 + step)
}

/// Turns `speed` around at a wall, keeping the fraction `restitution` of it.
pub fn rebound(speed: i64, restitution: u64) -> (r: i64)
    ensures
        r == rebounded(speed as int, restitution as int),
{
    let kept: i128 = scale(speed, restitution);
    saturate(-kept)
}

/// Scaling by one whole unit changes nothing.
pub proof fn lemma_scaled_by_one(v: int)
    ensures
        scaled(v, SCALE as int) == v,
        scaled(SCALE as int, v) == v,
{
    assert(v * 1_000_000 == 1_000_000 * v);
    if v >= 0 {
        assert((v * 1_000_000) / 1_000_000 == v);
    } else {
        assert((-(v * 1_000_000)) / 1_000_000 == -v);
    }
}

/// Scaling by nothing, or scaling nothing, gives nothing.
pub proof fn lemma_scaled_zero(v: int)
    ensures
        scaled(v, 0) == 0,
        scaled(0, v) == 0,
{
    assert(v * 0 == 0) by (nonlinear_arith);
    assert(0 * v == 0) by (nonlinear_arith);
}

/// A quantity and its negation scale to opposite results.
pub proof fn lemma_scaled_negation(a: int, b: int)
    ensures
        scaled(-a, b) == -scaled(a, b),
{
    assert((-a) * b == -(a * b)) by (nonlinear_arith);
}

/// A share of at most one whole never grows a quantity, and never turns it
/// around.
pub proof fn lemma_scaled_share(v: int, share: int)
    requires
        0 <= share <= SCALE,
    ensures
        v >= 0 ==> 0 <= scaled(v, share) <= v,
        v <= 0 ==> v <= scaled(v, share) <= 0,
{
    let p = v * share;
    if v >= 0 {
        assert(0 <= p <= v * 1_000_000) by (nonlinear_arith)
            requires
                p == v * share,
                v >= 0,
                0 <= share <= 1_000_000,
        ;
    } else {
        assert(0 <= -p <= (-v) * 1_000_000) by (nonlinear_arith)
            requires
                p == v * share,
                v < 0,
                0 <= share <= 1_000_000,
        ;
    }
}

/// Within the range, an elastic wall returns exactly the opposite speed, and
/// a lossy wall exactly the opposite of the kept share, which is as much as
/// the kept share of the opposite speed.
pub proof fn lemma_rebounded_in_range(speed: int, restitution: int)
    requires
        in_range(speed),
        0 <= restitution <= SCALE,
    ensures
        rebounded(speed, restitution) == -scaled(speed, restitution),
        rebounded(speed, restitution) == scaled(-speed, restitution),
        in_range(rebounded(speed, restitution)),
        restitution == SCALE ==> rebounded(speed, restitution) == -speed,
{
    lemma_scaled_share(speed, restitution);
    lemma_scaled_by_one(speed);
    lemma_scaled_negation(speed, restitution);
}

} // verus!
