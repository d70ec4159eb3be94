//! What a bit pattern stands for, and why the order key orders patterns as
//! the numbers they stand for.
//!
//! A finite pattern without its sign splits into an exponent field of
//! eleven bits and a fraction of fifty-two. With exponent field `e` and
//! fraction `f` it stands for `f * 2^-1074` where `e` is zero, and for
//! `(2^52 + f) * 2^(e - 1075)` else. In units of `2^-1074` every such value
//! is a natural number: that number is the scaled magnitude.

use vstd::prelude::*;
use vstd::arithmetic::power2::{pow2, lemma_pow2_pos, lemma_pow2_strictly_increases, lemma_pow2_unfold};
use crate::scalar::{Scalar, INFINITY_BITS};

verus! {

/// Two to the fifty-second: the number of fractions.
pub const FRACTION_LIMIT: u64 = 0x0010_0000_0000_0000u64;

/// The exponent field of a magnitude.
pub open spec fn exponent_of(magnitude: int) -> int {
    magnitude / (FRACTION_LIMIT as int)
}

/// The fraction of a magnitude.
pub open spec fn fraction_of(magnitude: int) -> int {
    magnitude % (FRACTION_LIMIT as int)
}

/// The value of a finite magnitude in units of `2^-1074`.
pub open spec fn scaled_magnitude(magnitude: int) -> int {
    if exponent_of(magnitude) <= 0 {
        fraction_of(magnitude)
    } else {
        (FRACTION_LIMIT + fraction_of(magnitude)) * pow2((exponent_of(magnitude) - 1) as nat)
    }
}

/// Whether the pattern stands for a number that is neither infinite nor a
/// NaN.
pub open spec fn finite(x: Scalar) -> bool {
    x.magnitude() < INFINITY_BITS
}

/// The value of a finite pattern in units of `2^-1074`, with its sign.
pub open spec fn scaled_value(x: Scalar) -> int {
    if x.negative() {
        -scaled_magnitude(x.magnitude())
    } else {
        scaled_magnitude(x.magnitude())
    }
}

/// A magnitude with exponent field `e` stands for a value from `2^(51 + e)`
/// up to, but not reaching, `2^(52 + e)`; with exponent field zero, for a
/// value below `2^52`.
proof fn lemma_scaled_range(magnitude: int)
    requires
        0 <= magnitude,
    ensures
        exponent_of(magnitude) == 0 ==> 0 <= scaled_magnitude(magnitude) < FRACTION_LIMIT,
        exponent_of(magnitude) >= 1 ==> FRACTION_LIMIT * pow2(
            (exponent_of(magnitude) - 1) as nat,
        ) <= scaled_magnitude(magnitude) < FRACTION_LIMIT * pow2(exponent_of(magnitude) as nat),
{
    let e = exponent_of(magnitude);
    let f = fraction_of(magnitude);
    assert(0 <= f < FRACTION_LIMIT);
    assert(e >= 0) by (nonlinear_arith)
        requires
            0 <= magnitude,
            e == magnitude / (FRACTION_LIMIT as int),
    ;
    if e >= 1 {
        let p = pow2((e - 1) as nat) as int;
        lemma_pow2_pos((e - 1) as nat);
        lemma_pow2_unfold(e as nat);
        assert(pow2(e as nat) == 2 * p);
        assert(FRACTION_LIMIT * p <= (FRACTION_LIMIT + f) * p < FRACTION_LIMIT * (2 * p))
            by (nonlinear_arith)
            requires
                0 <= f < FRACTION_LIMIT,
                p > 0,
        ;
    }
}

/// A larger magnitude stands for a larger value.
pub proof fn lemma_magnitude_monotone(a: int, b: int)
    requires
        0 <= a < b,
    ensures
        scaled_magnitude(a) < scaled_magnitude(b),
{
    let ea = exponent_of(a);
    let eb = exponent_of(b);
    let fa = fraction_of(a);
    let fb = fraction_of(b);
    let limit = FRACTION_LIMIT as int;
    assert(a == limit * ea + fa && b == limit * eb + fb && 0 <= fa < limit && 0 <= fb < limit
        && 0 <= ea <= eb) by (nonlinear_arith)
        requires
            0 <= a < b,
            limit == 0x0010_0000_0000_0000,
            ea == a / limit,
            eb == b / limit,
            fa == a % limit,
            fb == b % limit,
    ;
    lemma_scaled_range(a);
    lemma_scaled_range(b);
    if ea == eb {
        assert(fa < fb);
        if ea >= 1 {
            let p = pow2((ea - 1) as nat) as int;
            lemma_pow2_pos((ea - 1) as nat);
            assert((limit + fa) * p < (limit + fb) * p) by (nonlinear_arith)
                requires
                    fa < fb,
                    p > 0,
            ;
        }
    } else {
        // the value of `a` stays below `2^(52 + ea)`, where that of `b` begins
        if ea == 0 {
            lemma_pow2_pos((eb - 1) as nat);
            assert(limit * 1 <= limit * pow2((eb - 1) as nat)) by (nonlinear_arith)
                requires
                    limit > 0,
                    pow2((eb - 1) as nat) >= 1,
            ;
        } else {
            if ea < eb - 1 {
                lemma_pow2_strictly_increases(ea as nat, (eb - 1) as nat);
            }
            assert(limit * pow2(ea as nat) <= limit * pow2((eb - 1) as nat)) by (nonlinear_arith)
                requires
                    limit > 0,
                    pow2(ea as nat) <= pow2((eb - 1) as nat),
            ;
        }
    }
}

/// The order key orders finite patterns as the numbers they stand for:
/// one key is below another exactly where its number is, and two keys are
/// equal exactly where the numbers are. So the two zeros are one number,
/// and no other two patterns are.
pub proof fn lemma_key_orders_values(a: Scalar, b: Scalar)
    requires
        finite(a),
        finite(b),
    ensures
        a.key() < b.key() <==> scaled_value(a) < scaled_value(b),
        a.key() == b.key() <==> scaled_value(a) == scaled_value(b),
        a.lt(b) <==> scaled_value(a) < scaled_value(b),
        a.same(b) <==> scaled_value(a) == scaled_value(b),
{
    let ma = a.magnitude();
    let mb = b.magnitude();
    if ma < mb {
        lemma_magnitude_monotone(ma, mb);
    } else if mb < ma {
        lemma_magnitude_monotone(mb, ma);
    }
    if ma > 0 {
        lemma_magnitude_monotone(0, ma);
    }
    if mb > 0 {
        lemma_magnitude_monotone(0, mb);
    }
    assert(scaled_magnitude(0) == 0);
}

/// The infinities are beyond every finite number, on their side.
pub proof fn lemma_infinities_are_outermost(x: Scalar)
    requires
        finite(x),
    ensures
        x.lt(Scalar { bits: INFINITY_BITS }),
        (Scalar { bits: 0xFFF0_0000_0000_0000u64 }).lt(x),
        !x.nan(),
{
}

/// One stands for `2^52 * 2^1022` units of `2^-1074`, which is 1; and
/// zero for none.
pub proof fn lemma_one_and_zero()
    ensures
        exponent_of(0x3FF0_0000_0000_0000) == 1023,
        fraction_of(0x3FF0_0000_0000_0000) == 0,
        scaled_magnitude(0x3FF0_0000_0000_0000) == FRACTION_LIMIT * pow2(1022),
        scaled_magnitude(0) == 0,
        scaled_value(Scalar { bits: 0x8000_0000_0000_0000u64 }) == 0,
{
}

} // verus!
