//! Fixed-point arithmetic on quantities counted in millionths.

use vstd::prelude::*;

verus! {

/// One whole unit, counted in millionths.
pub const UNIT: i64 = 1_000_000;

/// Far enough beyond the `i64` range that a sum of an `i64` and a value cut off
/// at `REACH` lies on the same side of every `i64` bound as the exact sum.
pub const REACH: i128 = 0x2_0000_0000_0000_0000;

/// The quotient of `n` by a positive `d`, rounded toward zero.
pub open spec fn div_toward_zero(n: int, d: int) -> int
    recommends
        d > 0,
{
    if n >= 0 {
        n / d
    } else {
        -((-n) / d)
    }
}

/// `value`, moved to the nearer end of `low..=high` when it lies outside.
pub open spec fn clamp(value: int, low: int, high: int) -> int
    recommends
        low <= high,
{
    if value < low {
        low
    } else if value > high {
        high
    } else {
        value
    }
}

/// `value`, held within what an `i64` can represent.
pub open spec fn saturate(value: int) -> int {
    clamp(value, i64::MIN as int, i64::MAX as int)
}

/// The fixed-point product of the fixed-point numbers `a` and `b`.
pub open spec fn product(a: int, b: int) -> int {
    div_toward_zero(a * b, UNIT as int)
}

/// The fixed-point quotient of the fixed-point number `a` by a positive `b`.
pub open spec fn quotient(a: int, b: int) -> int
    recommends
        b > 0,
{
    div_toward_zero(a * UNIT, b)
}

/// A product has the sign that its factors give it.
proof fn lemma_product_sign(a: int, b: int)
    ensures
        a * b > 0 <==> (a > 0 && b > 0) || (a < 0 && b < 0),
        a * b < 0 <==> (a > 0 && b < 0) || (a < 0 && b > 0),
{
    assert((a * b > 0 <==> (a > 0 && b > 0) || (a < 0 && b < 0)) && (a * b < 0 <==> (a > 0 && b
        < 0) || (a < 0 && b > 0))) by (nonlinear_arith);
}

/// Cutting an increment off at `REACH` does not change where the sum with an
/// `i64` ends up once that sum is itself held within `i64` bounds.
pub(crate) proof fn lemma_reach_is_enough(base: int, increment: int, low: int, high: int)
    requires
        i64::MIN <= base <= i64::MAX,
        i64::MIN <= low <= high <= i64::MAX,
    ensures
        clamp(base + clamp(increment, -(REACH as int), REACH as int), low, high) == clamp(
            base + increment,
            low,
            high,
        ),
{
}

/// Computes `quotient(a, b)`.
pub(crate) fn quotient_of(a: i64, b: i64) -> (q: i128)
    requires
        b > 0,
    ensures
        q == quotient(a as int, b as int),
{
    assert(i64::MIN * 1_000_000 <= a * UNIT <= i64::MAX * 1_000_000) by (nonlinear_arith)
        requires
            UNIT == 1_000_000,
            i64::MIN <= a <= i64::MAX,
    ;
    let scaled: i128 = (a as i128) * (UNIT as i128);
    scaled / (b as i128)
}

/// Computes `product(a, b)`, cut off at `REACH` on either side.
pub(crate) fn product_within_reach(a: i128, b: i128) -> (p: i128)
    ensures
        p == clamp(product(a as int, b as int), -(REACH as int), REACH as int),
{
    match a.checked_mul(b) {
        Some(exact) => {
            let q: i128 = exact / (UNIT as i128);
            if q > REACH {
                REACH
            } else if q < -REACH {
                -REACH
            } else {
                q
            }
        },
        None => {
            proof {
                lemma_product_sign(a as int, b as int);
            }
            if (a < 0) == (b < 0) {
                REACH
            } else {
                -REACH
            }
        },
    }
}

} // verus!
