//! Fixed-point scalars: signed 64-bit integers carrying a 16-bit fraction.
//!
//! A value `a` stands for the real number `a / 65536`. Multiplication and
//! division truncate toward zero, and the square root rounds down; every
//! operation states its exact result.

use vstd::prelude::*;

verus! {

/// One whole unit: the fixed-point representation of 1.
pub const FX_ONE: i64 = 65536;

/// Largest magnitude allowed for a coordinate, extent, radius or thickness.
pub const COORD_MAX: i64 = 0x0FFF_FFFF;

/// Largest magnitude the line primitive accepts for an endpoint; computed
/// shape boundary points stay within it.
pub const LINE_MAX: i64 = 0x3FFF_FFFF;

/// Magnitude of an integer.
pub open spec fn iabs(a: int) -> int {
    if a >= 0 {
        a
    } else {
        -a
    }
}

/// A scalar small enough to take part in any tessellation arithmetic.
pub open spec fn fx_ok(a: i64) -> bool {
    -COORD_MAX <= a <= COORD_MAX
}

/// A line endpoint small enough for the line primitive's arithmetic.
pub open spec fn line_ok(a: i64) -> bool {
    -LINE_MAX <= a <= LINE_MAX
}

/// Quotient truncated toward zero, the rounding of this library's
/// fixed-point multiplication and division.
pub open spec fn div_trunc_spec(a: int, b: int) -> int
    recommends
        b != 0,
{
    let q = iabs(a) / iabs(b);
    if (a >= 0) == (b >= 0) {
        q
    } else {
        -q
    }
}

/// Fixed-point product: `a * b / FX_ONE`, truncated toward zero.
pub open spec fn fx_mul_spec(a: int, b: int) -> int {
    div_trunc_spec(a * b, FX_ONE as int)
}

/// Fixed-point quotient: `a * FX_ONE / b`, truncated toward zero.
pub open spec fn fx_div_spec(a: int, b: int) -> int
    recommends
        b != 0,
{
    div_trunc_spec(a * FX_ONE as int, b)
}

/// `|a * b| <= ma * mb` whenever `|a| <= ma` and `|b| <= mb`.
pub proof fn lemma_mul_le(a: int, b: int, ma: int, mb: int)
    requires
        iabs(a) <= ma,
        iabs(b) <= mb,
    ensures
        iabs(a * b) <= ma * mb,
{
    assert(iabs(a * b) <= ma * mb) by (nonlinear_arith)
        requires
            iabs(a) <= ma,
            iabs(b) <= mb,
    ;
}

/// The magnitude of a product is the product of the magnitudes.
pub proof fn lemma_abs_mul(a: int, b: int)
    ensures
        iabs(a * b) == iabs(a) * iabs(b),
{
    assert(iabs(a * b) == iabs(a) * iabs(b)) by (nonlinear_arith);
}

/// Truncation never grows the magnitude of the exact quotient:
/// `|div_trunc_spec(a, b)| * |b| <= |a|`.
pub proof fn lemma_div_trunc_mag(a: int, b: int)
    requires
        b != 0,
    ensures
        iabs(div_trunc_spec(a, b)) * iabs(b) <= iabs(a),
        iabs(a) < iabs(b) ==> div_trunc_spec(a, b) == 0,
{
    let ua = iabs(a);
    let ub = iabs(b);
    assert(0 <= ua / ub * ub <= ua) by (nonlinear_arith)
        requires
            ua >= 0,
            ub > 0,
    ;
    if ua < ub {
        assert(ua / ub == 0) by (nonlinear_arith)
            requires
                0 <= ua < ub,
        ;
    }
}

/// Multiplying by one whole unit is the identity.
pub proof fn lemma_fx_mul_one(a: int)
    ensures
        fx_mul_spec(a, FX_ONE as int) == a,
{
    lemma_abs_mul(a, FX_ONE as int);
    vstd::arithmetic::div_mod::lemma_div_multiples_vanish(iabs(a), FX_ONE as int);
    assert(FX_ONE as int * iabs(a) == iabs(a) * FX_ONE as int) by (nonlinear_arith);
    if a < 0 {
        assert((a * (FX_ONE as int)) < 0) by (nonlinear_arith)
            requires
                a < 0,
        ;
    } else {
        assert((a * (FX_ONE as int)) >= 0) by (nonlinear_arith)
            requires
                a >= 0,
        ;
    }
}

/// Multiplying by zero gives zero.
pub proof fn lemma_fx_mul_zero(a: int)
    ensures
        fx_mul_spec(a, 0) == 0,
        fx_mul_spec(0, a) == 0,
{
    assert(a * 0 == 0) by (nonlinear_arith);
    assert(0 * a == 0) by (nonlinear_arith);
}

/// Truncated division by a positive divisor, exactly `div_trunc_spec`.
pub fn div_trunc(a: i64, b: i64) -> (r: i64)
    requires
        a != i64::MIN,
        b != i64::MIN,
        b != 0,
    ensures
        r == div_trunc_spec(a as int, b as int),
{
    let ua: u64 = if a >= 0 {
        a as u64
    } else {
        (-a) as u64
    };
    let ub: u64 = if b >= 0 {
        b as u64
    } else {
        (-b) as u64
    };
    let q: u64 = ua / ub;
    assert(ua as int == iabs(a as int));
    assert(ub as int == iabs(b as int));
    assert(q as int == iabs(a as int) / iabs(b as int));
    assert(q * ub <= ua) by (nonlinear_arith)
        requires
            q == ua / ub,
            ub > 0,
    ;
    if (a >= 0) == (b >= 0) {
        q as i64
    } else {
        -(q as i64)
    }
}

/// Fixed-point product, exactly `fx_mul_spec`.
pub fn fx_mul(a: i64, b: i64) -> (r: i64)
    requires
        -0x4000_0000_0000_0000 <= (a as int) * (b as int) <= 0x4000_0000_0000_0000,
    ensures
        r == fx_mul_spec(a as int, b as int),
{
    let p: i64 = a * b;
    div_trunc(p, FX_ONE)
}

/// `r` is the integer square root of `v`: the largest integer whose square
/// does not exceed `v`.
pub open spec fn is_sqrt(v: int, r: int) -> bool {
    0 <= r && r * r <= v && v < (r + 1) * (r + 1)
}

/// The integer square root (rounded down) of a nonnegative value.
pub open spec fn sqrt_of(v: int) -> int {
    choose|r: int| is_sqrt(v, r)
}

/// Every nonnegative value has an integer square root.
pub proof fn lemma_sqrt_exists(v: nat)
    ensures
        is_sqrt(v as int, sqrt_of(v as int)),
    decreases v,
{
    if v == 0 {
        assert(is_sqrt(0, 0));
        assert(exists|r: int| is_sqrt(0, r));
    } else {
        lemma_sqrt_exists((v - 1) as nat);
        let r = sqrt_of(v as int - 1);
        if (r + 1) * (r + 1) <= v as int {
            assert(is_sqrt(v as int, r + 1)) by (nonlinear_arith)
                requires
                    0 <= r,
                    r * r <= v as int - 1,
                    v as int - 1 < (r + 1) * (r + 1),
                    (r + 1) * (r + 1) <= v as int,
            ;
        } else {
            assert(is_sqrt(v as int, r));
        }
        assert(exists|q: int| is_sqrt(v as int, q));
    }
}

/// The integer square root is unique.
pub proof fn lemma_sqrt_unique(v: int, r1: int, r2: int)
    requires
        is_sqrt(v, r1),
        is_sqrt(v, r2),
    ensures
        r1 == r2,
{
    assert(r1 == r2) by (nonlinear_arith)
        requires
            0 <= r1 && r1 * r1 <= v && v < (r1 + 1) * (r1 + 1),
            0 <= r2 && r2 * r2 <= v && v < (r2 + 1) * (r2 + 1),
    ;
}

/// Integer square root by bisection, exactly `sqrt_of`.
pub fn isqrt(v: u64) -> (r: u64)
    ensures
        is_sqrt(v as int, r as int),
        r as int == sqrt_of(v as int),
        r <= 0xFFFF_FFFF,
{
    let mut lo: u64 = 0;
    let mut hi: u64 = 0x1_0000_0000;
    while lo + 1 < hi
        invariant
            lo < hi <= 0x1_0000_0000,
            (lo as int) * (lo as int) <= v as int,
            (v as int) < (hi as int) * (hi as int),
        decreases hi - lo,
    {
        let mid: u64 = lo + (hi - lo) / 2;
        proof {
            assert((mid as int) * (mid as int) <= 0xFFFF_FFFE_0000_0001) by (nonlinear_arith)
                requires
                    mid <= 0xFFFF_FFFFu64,
            ;
        }
        let sq: u64 = mid * mid;
        if sq <= v {
            lo = mid;
        } else {
            hi = mid;
        }
    }
    proof {
        lemma_sqrt_exists(v as nat);
        lemma_sqrt_unique(v as int, lo as int, sqrt_of(v as int));
    }
    lo
}

/// Fixed-point quotient, exactly `fx_div_spec`.
pub fn fx_div(a: i64, b: i64) -> (r: i64)
    requires
        -COORD_MAX <= a <= COORD_MAX,
        b != i64::MIN,
        b != 0,
    ensures
        r == fx_div_spec(a as int, b as int),
{
    let p: i64 = a * FX_ONE;
    div_trunc(p, b)
}

} // verus!
