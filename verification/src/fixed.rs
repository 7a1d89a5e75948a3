//! Signed fixed-point arithmetic with 16 fractional bits.
//!
//! Every coordinate, attribute and matrix entry in this crate is an `i64`
//! holding a real value scaled by `FP_ONE`.  Products and quotients are
//! computed exactly in wide integers and rounded toward zero; operations
//! whose result leaves the `i64` range report that instead of wrapping.

use vstd::prelude::*;

verus! {

/// The fixed-point scale: the representation of the real number one.
pub const FP_ONE: i64 = 65536;

/// Magnitude of an integer.
pub open spec fn sp_abs(a: int) -> int {
    if a >= 0 {
        a
    } else {
        -a
    }
}

/// Quotient of `n` by `d`, rounded toward zero (`d > 0`).
pub open spec fn div_toward_zero(n: int, d: int) -> int
    recommends
        d > 0,
{
    if n >= 0 {
        n / d
    } else {
        -((-n) / d)
    }
}

/// The fixed-point product of `a` and `b`, rounded toward zero.
pub open spec fn fp_mul_spec(a: int, b: int) -> int {
    div_toward_zero(a * b, FP_ONE as int)
}

/// The fixed-point quotient of `a` by `b`, rounded toward zero
/// (meaningful only for `b != 0`).
pub open spec fn fp_div_spec(a: int, b: int) -> int
    recommends
        b != 0,
{
    let m = (sp_abs(a) * (FP_ONE as int)) / sp_abs(b);
    if (a < 0) <==> (b < 0) {
        m
    } else {
        -m
    }
}

/// Whether `v` fits the `i64` range.
pub open spec fn fits_i64(v: int) -> bool {
    i64::MIN <= v <= i64::MAX
}

/// Magnitude of an `i64`, widened so that `i64::MIN` needs no special case.
fn abs_wide(a: i64) -> (m: u128)
    ensures
        m == sp_abs(a as int),
        m <= 0x8000_0000_0000_0000u128,
{
    if a >= 0 {
        a as u128
    } else {
        (-(a as i128)) as u128
    }
}

/// Fixed-point product; `None` exactly when the true product leaves `i64`.
pub fn fp_mul(a: i64, b: i64) -> (r: Option<i64>)
    ensures
        r is Some <==> fits_i64(fp_mul_spec(a as int, b as int)),
        r is Some ==> r->0 == fp_mul_spec(a as int, b as int),
{
    let ma = abs_wide(a);
    let mb = abs_wide(b);
    assert(ma * mb <= 0x8000_0000_0000_0000u128 * 0x8000_0000_0000_0000u128)
        by (nonlinear_arith)
        requires
            ma <= 0x8000_0000_0000_0000u128,
            mb <= 0x8000_0000_0000_0000u128,
    ;
    let q: u128 = (ma * mb) / (FP_ONE as u128);
    proof {
        lemma_magnitude_quotient(a as int, b as int, ma as int, mb as int, q as int);
    }
    if (a < 0) != (b < 0) {
        if q <= 0x8000_0000_0000_0000u128 {
            Some((-(q as i128)) as i64)
        } else {
            None
        }
    } else {
        if q <= 0x7FFF_FFFF_FFFF_FFFFu128 {
            Some(q as i64)
        } else {
            None
        }
    }
}

/// Relates the magnitude computation of `fp_mul` to `fp_mul_spec`.
proof fn lemma_magnitude_quotient(a: int, b: int, ma: int, mb: int, q: int)
    requires
        ma == sp_abs(a),
        mb == sp_abs(b),
        q == (ma * mb) / (FP_ONE as int),
    ensures
        (a < 0 <==> b < 0) ==> fp_mul_spec(a, b) == q,
        !(a < 0 <==> b < 0) ==> fp_mul_spec(a, b) == -q,
        q >= 0,
{
    assert(ma * mb == sp_abs(a * b)) by (nonlinear_arith)
        requires
            ma == sp_abs(a),
            mb == sp_abs(b),
    ;
    assert(q >= 0) by {
        vstd::arithmetic::div_mod::lemma_div_pos_is_pos(ma * mb, FP_ONE as int);
    }
    if a * b >= 0 {
        assert(fp_mul_spec(a, b) == (a * b) / (FP_ONE as int));
        assert(sp_abs(a * b) == a * b);
        if a * b > 0 {
            assert((a < 0 <==> b < 0)) by (nonlinear_arith)
                requires
                    a * b > 0,
            ;
        } else {
            assert(a * b == 0 ==> a == 0 || b == 0) by (nonlinear_arith);
            assert(q == 0) by {
                vstd::arithmetic::div_mod::lemma_basic_div(0, FP_ONE as int);
            }
        }
    } else {
        assert(fp_mul_spec(a, b) == -((-(a * b)) / (FP_ONE as int)));
        assert(sp_abs(a * b) == -(a * b));
        assert(!(a < 0 <==> b < 0)) by (nonlinear_arith)
            requires
                a * b < 0,
        ;
    }
}

/// Fixed-point product of two `i64` values, exact in a wide integer.
pub fn fp_term(a: i64, b: i64) -> (t: i128)
    ensures
        t == fp_mul_spec(a as int, b as int),
        -0x1_0000_0000_0000_0000_0000_0000_0000 <= t <= 0x1_0000_0000_0000_0000_0000_0000_0000,
{
    let ma = abs_wide(a);
    let mb = abs_wide(b);
    assert(ma * mb <= 0x8000_0000_0000_0000u128 * 0x8000_0000_0000_0000u128)
        by (nonlinear_arith)
        requires
            ma <= 0x8000_0000_0000_0000u128,
            mb <= 0x8000_0000_0000_0000u128,
    ;
    let q: u128 = (ma * mb) / (FP_ONE as u128);
    proof {
        lemma_magnitude_quotient(a as int, b as int, ma as int, mb as int, q as int);
        vstd::arithmetic::div_mod::lemma_div_is_ordered(
            ma * mb,
            0x4000_0000_0000_0000_0000_0000_0000_0000,
            FP_ONE as int,
        );
    }
    if (a < 0) != (b < 0) {
        -(q as i128)
    } else {
        q as i128
    }
}

/// Fixed-point product of two bounded `i64` values, with a matching bound
/// on the result.
pub fn fp_term_small(a: i64, b: i64) -> (t: i128)
    requires
        -0x4000_0000_0000 <= a <= 0x4000_0000_0000,
        -0x4000_0000_0000 <= b <= 0x4000_0000_0000,
    ensures
        t == fp_mul_spec(a as int, b as int),
        -0x1_0000_0000_0000_0000_0000 <= t <= 0x1_0000_0000_0000_0000_0000,
{
    let ma = abs_wide(a);
    let mb = abs_wide(b);
    assert(ma * mb <= 0x4000_0000_0000u128 * 0x4000_0000_0000u128) by (nonlinear_arith)
        requires
            ma <= 0x4000_0000_0000u128,
            mb <= 0x4000_0000_0000u128,
    ;
    let q: u128 = (ma * mb) / (FP_ONE as u128);
    proof {
        lemma_magnitude_quotient(a as int, b as int, ma as int, mb as int, q as int);
        vstd::arithmetic::div_mod::lemma_div_is_ordered(
            ma * mb,
            0x1000_0000_0000_0000_0000_0000,
            FP_ONE as int,
        );
    }
    if (a < 0) != (b < 0) {
        -(q as i128)
    } else {
        q as i128
    }
}

/// Fixed-point product of a bounded `i64` with a wide intermediate, exact
/// in a wide integer.
pub fn fp_term_wide(a: i64, b: i128) -> (t: i128)
    requires
        -0x4000_0000_0000 <= a <= 0x4000_0000_0000,
        -0x2_0000_0000_0000_0000_0000 <= b <= 0x2_0000_0000_0000_0000_0000,
    ensures
        t == fp_mul_spec(a as int, b as int),
        -0x1_0000_0000_0000_0000_0000_0000_0000 <= t <= 0x1_0000_0000_0000_0000_0000_0000_0000,
{
    let ma = abs_wide(a);
    let mb: u128 = if b >= 0 {
        b as u128
    } else {
        (-b) as u128
    };
    assert(ma * mb <= 0x4000_0000_0000u128 * 0x2_0000_0000_0000_0000_0000u128) by (nonlinear_arith)
        requires
            ma <= 0x4000_0000_0000u128,
            mb <= 0x2_0000_0000_0000_0000_0000u128,
    ;
    let q: u128 = (ma * mb) / (FP_ONE as u128);
    proof {
        lemma_magnitude_quotient(a as int, b as int, ma as int, mb as int, q as int);
        vstd::arithmetic::div_mod::lemma_div_is_ordered(
            ma * mb,
            0x8000_0000_0000_0000_0000_0000_0000_0000,
            FP_ONE as int,
        );
    }
    if (a < 0) != (b < 0) {
        -(q as i128)
    } else {
        q as i128
    }
}

/// Square of a bounded `i64`, exact in a wide integer.
pub fn sq_small(a: i64) -> (r: i128)
    requires
        -0x4000_0000_0000 <= a <= 0x4000_0000_0000,
    ensures
        r == (a as int) * (a as int),
        0 <= r <= 0x1000_0000_0000_0000_0000_0000,
{
    proof {
        assert(0 <= (a as int) * (a as int) <= 0x1000_0000_0000_0000_0000_0000) by (nonlinear_arith)
            requires
                -0x4000_0000_0000 <= a <= 0x4000_0000_0000,
        ;
    }
    (a as i128) * (a as i128)
}

/// Whether `r` is the floor of the square root of `x`.
pub open spec fn is_sqrt_floor(x: int, r: int) -> bool {
    0 <= r && r * r <= x < (r + 1) * (r + 1)
}

/// Floor of the square root of a non-negative integer.
pub open spec fn sqrt_floor(x: int) -> int {
    choose|r: int| is_sqrt_floor(x, r)
}

/// The floor square root is what its two-sided bound says it is.
pub proof fn lemma_sqrt_floor_unique(x: int, r: int)
    requires
        0 <= r,
        r * r <= x,
        x < (r + 1) * (r + 1),
    ensures
        sqrt_floor(x) == r,
{
    assert(is_sqrt_floor(x, r));
    let q = choose|q: int| is_sqrt_floor(x, q);
    assert(is_sqrt_floor(x, q));
    if q < r {
        assert(false) by (nonlinear_arith)
            requires
                0 <= q < r,
                q * q <= x < (q + 1) * (q + 1),
                r * r <= x,
        ;
    }
    if q > r {
        assert(false) by (nonlinear_arith)
            requires
                0 <= r < q,
                r * r <= x < (r + 1) * (r + 1),
                q * q <= x,
        ;
    }
}

/// Fixed-point quotient of a wide numerator by a wide divisor; `None`
/// when the divisor is zero or the true quotient leaves `i64`.
pub fn fp_div_wide(a: i128, b: i128) -> (r: Option<i64>)
    requires
        -0x1_0000_0000_0000_0000_0000_0000_0000 < a < 0x1_0000_0000_0000_0000_0000_0000_0000,
        -0x8000_0000_0000_0000_0000_0000_0000_0000 < b,
    ensures
        b != 0 ==> (r is Some <==> fits_i64(fp_div_spec(a as int, b as int))),
        b != 0 && r is Some ==> r->0 == fp_div_spec(a as int, b as int),
        b == 0 ==> r is None,
{
    if b == 0 {
        return None;
    }
    let ma: u128 = if a >= 0 {
        a as u128
    } else {
        (-a) as u128
    };
    let mb: u128 = if b >= 0 {
        b as u128
    } else {
        (-b) as u128
    };
    assert(ma * (FP_ONE as u128) <= 0xFFFF_FFFF_FFFF_FFFF_FFFF_FFFF_FFFFu128 * 0x1_0000u128)
        by (nonlinear_arith)
        requires
            ma <= 0xFFFF_FFFF_FFFF_FFFF_FFFF_FFFF_FFFFu128,
    ;
    let q: u128 = (ma * (FP_ONE as u128)) / mb;
    if (a < 0) != (b < 0) {
        if q <= 0x8000_0000_0000_0000u128 {
            Some((-(q as i128)) as i64)
        } else {
            None
        }
    } else {
        if q <= 0x7FFF_FFFF_FFFF_FFFFu128 {
            Some(q as i64)
        } else {
            None
        }
    }
}

/// Fixed-point quotient; `None` when `b` is zero or the true quotient
/// leaves `i64`.
pub fn fp_div(a: i64, b: i64) -> (r: Option<i64>)
    ensures
        b != 0 ==> (r is Some <==> fits_i64(fp_div_spec(a as int, b as int))),
        b != 0 && r is Some ==> r->0 == fp_div_spec(a as int, b as int),
        b == 0 ==> r is None,
{
    if b == 0 {
        return None;
    }
    let ma = abs_wide(a);
    let mb = abs_wide(b);
    assert(ma * (FP_ONE as u128) <= 0x8000_0000_0000_0000u128 * 0x1_0000u128)
        by (nonlinear_arith)
        requires
            ma <= 0x8000_0000_0000_0000u128,
    ;
    let q: u128 = (ma * (FP_ONE as u128)) / mb;
    if (a < 0) != (b < 0) {
        if q <= 0x8000_0000_0000_0000u128 {
            Some((-(q as i128)) as i64)
        } else {
            None
        }
    } else {
        if q <= 0x7FFF_FFFF_FFFF_FFFFu128 {
            Some(q as i64)
        } else {
            None
        }
    }
}

/// Integer square root of `x`, for `x` below `2^126`.
pub fn int_sqrt(x: u128) -> (r: u64)
    requires
        x < 0x4000_0000_0000_0000_0000_0000_0000_0000u128,
    ensures
        (r as int) * (r as int) <= x as int,
        x < ((r as int) + 1) * ((r as int) + 1),
{
    let mut lo: u64 = 0;
    let mut hi: u64 = 0x8000_0000_0000_0000u64;
    proof {
        assert(((hi as int) + 1) * ((hi as int) + 1) > x as int) by (nonlinear_arith)
            requires
                hi == 0x8000_0000_0000_0000u64,
                x < 0x4000_0000_0000_0000_0000_0000_0000_0000u128,
        ;
    }
    while lo < hi
        invariant
            lo <= hi <= 0x8000_0000_0000_0000u64,
            (lo as int) * (lo as int) <= x as int,
            x < ((hi as int) + 1) * ((hi as int) + 1),
        decreases hi - lo,
    {
        let mid: u64 = (((lo as u128) + (hi as u128) + 1) / 2) as u64;
        assert((mid as u128) * (mid as u128) < 0xFFFF_FFFF_FFFF_FFFF_FFFF_FFFF_FFFF_FFFFu128)
            by (nonlinear_arith)
            requires
                mid <= 0x8000_0000_0000_0000u64,
        ;
        if (mid as u128) * (mid as u128) <= x {
            lo = mid;
        } else {
            hi = mid - 1;
        }
    }
    lo
}

} // verus!
