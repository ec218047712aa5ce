//! Sine and cosine on fixed-point angles measured in degrees.
//!
//! An angle `a` stands for `a / FX_ONE` degrees. The functions reduce the
//! angle modulo a full turn and evaluate an integer form of Bhaskara's
//! rational sine approximation. The results are exact at the quadrant
//! boundaries (0, 90, 180, 270 degrees) and always lie in `[-FX_ONE, FX_ONE]`.

use vstd::prelude::*;
use vstd::arithmetic::div_mod::{
    lemma_fundamental_div_mod, lemma_fundamental_div_mod_converse_mod, lemma_mod_bound,
    lemma_div_is_ordered, lemma_div_multiples_vanish,
};
use crate::fx::FX_ONE;

verus! {

/// A quarter turn.
pub const DEG_90: i64 = 5898240;

/// A half turn.
pub const DEG_180: i64 = 11796480;

/// A full turn.
pub const DEG_360: i64 = 23592960;

/// Largest angle magnitude the trigonometric functions accept.
pub const ANGLE_MAX: i64 = 0x200_0000_0000;

/// The angle reduced to `[0, DEG_360)`.
pub open spec fn angle_norm(a: int) -> int {
    a % (DEG_360 as int)
}

/// Bhaskara's sine approximation on a half turn, `m` in `[0, DEG_180]`,
/// scaled so that the result of `DEG_90` is exactly `FX_ONE`.
pub open spec fn sin_poly_spec(m: int) -> int
    recommends
        0 <= m <= DEG_180 as int,
{
    let p = m * (DEG_180 as int - m);
    (4 * p * FX_ONE as int) / (40500 * FX_ONE as int * FX_ONE as int - p)
}

/// Fixed-point sine of `a` fixed-point degrees.
pub open spec fn sin_fx_spec(a: int) -> int {
    let m = angle_norm(a);
    if m < DEG_180 as int {
        sin_poly_spec(m)
    } else {
        -sin_poly_spec(m - DEG_180 as int)
    }
}

/// Fixed-point cosine of `a` fixed-point degrees.
pub open spec fn cos_fx_spec(a: int) -> int {
    sin_fx_spec(a + DEG_90 as int)
}

/// The product of an angle and its half-turn complement never exceeds the
/// square of a quarter turn.
proof fn lemma_half_square(m: int)
    requires
        0 <= m <= DEG_180 as int,
    ensures
        0 <= m * (DEG_180 as int - m) <= 34789235097600,
{
    assert(0 <= m * (11796480 - m) <= 34789235097600) by (nonlinear_arith)
        requires
            0 <= m <= 11796480,
    ;
}

/// The half-turn sine approximation stays within `[0, FX_ONE]`.
pub proof fn lemma_sin_poly_bounds(m: int)
    requires
        0 <= m <= DEG_180 as int,
    ensures
        0 <= sin_poly_spec(m) <= FX_ONE as int,
{
    lemma_half_square(m);
    let p = m * (DEG_180 as int - m);
    let num = 4 * p * FX_ONE as int;
    let den = 40500 * FX_ONE as int * FX_ONE as int - p;
    assert(den >= 139156940390400);
    lemma_div_is_ordered(0, num, den);
    assert(num <= FX_ONE as int * den);
    lemma_div_is_ordered(num, FX_ONE as int * den, den);
    lemma_div_multiples_vanish(FX_ONE as int, den);
    assert(den * FX_ONE as int == FX_ONE as int * den);
}

/// The sine of zero is exactly zero.
pub proof fn lemma_sin_zero()
    ensures
        sin_fx_spec(0) == 0,
{
    lemma_fundamental_div_mod_converse_mod(0, DEG_360 as int, 0, 0);
    assert(angle_norm(0) == 0);
    assert(sin_poly_spec(0) == 0) by {
        lemma_div_is_ordered(0, 0, 40500 * FX_ONE as int * FX_ONE as int);
        lemma_div_multiples_vanish(0, 40500 * FX_ONE as int * FX_ONE as int);
    };
}

/// The cosine of zero is exactly one.
pub proof fn lemma_cos_zero()
    ensures
        cos_fx_spec(0) == FX_ONE as int,
{
    lemma_fundamental_div_mod_converse_mod(DEG_90 as int, DEG_360 as int, 0, DEG_90 as int);
    assert(angle_norm(DEG_90 as int) == DEG_90 as int);
    let p = DEG_90 as int * (DEG_180 as int - DEG_90 as int);
    assert(p == 34789235097600);
    let den = 40500 * FX_ONE as int * FX_ONE as int - p;
    assert(den == 139156940390400);
    assert(4 * p * FX_ONE as int == den * FX_ONE as int);
    lemma_div_multiples_vanish(FX_ONE as int, den);
}

/// The angle reduced to `[0, DEG_360)`, exactly `angle_norm`.
pub fn angle_mod(a: i64) -> (r: i64)
    requires
        -ANGLE_MAX <= a <= ANGLE_MAX,
    ensures
        r as int == angle_norm(a as int),
        0 <= r < DEG_360,
{
    proof {
        lemma_mod_bound(a as int, DEG_360 as int);
    }
    if a >= 0 {
        let r: u64 = (a as u64) % (DEG_360 as u64);
        proof {
            lemma_fundamental_div_mod(a as int, DEG_360 as int);
        }
        r as i64
    } else {
        let n: u64 = ((-a) as u64) % (DEG_360 as u64);
        proof {
            lemma_fundamental_div_mod(-(a as int), DEG_360 as int);
            let q = -(a as int) / (DEG_360 as int);
            if n == 0 {
                lemma_fundamental_div_mod_converse_mod(a as int, DEG_360 as int, -q, 0);
            } else {
                lemma_fundamental_div_mod_converse_mod(
                    a as int,
                    DEG_360 as int,
                    -q - 1,
                    DEG_360 as int - n as int,
                );
            }
        }
        if n == 0 {
            0
        } else {
            DEG_360 - (n as i64)
        }
    }
}

/// Bhaskara's half-turn sine, exactly `sin_poly_spec`.
fn sin_poly(mh: i64) -> (r: i64)
    requires
        0 <= mh <= DEG_180,
    ensures
        r as int == sin_poly_spec(mh as int),
        0 <= r <= FX_ONE,
{
    proof {
        lemma_half_square(mh as int);
        lemma_sin_poly_bounds(mh as int);
    }
    let p: i64 = mh * (DEG_180 - mh);
    let num: i64 = 4 * p * FX_ONE;
    let den: i64 = 173946175488000 - p;
    let q: u64 = (num as u64) / (den as u64);
    proof {
        assert(q as int == sin_poly_spec(mh as int));
    }
    q as i64
}

/// Fixed-point sine, exactly `sin_fx_spec`.
pub fn sin_fx(a: i64) -> (r: i64)
    requires
        -ANGLE_MAX <= a <= ANGLE_MAX,
    ensures
        r as int == sin_fx_spec(a as int),
        -FX_ONE <= r <= FX_ONE,
{
    let m = angle_mod(a);
    if m < DEG_180 {
        sin_poly(m)
    } else {
        -sin_poly(m - DEG_180)
    }
}

/// Fixed-point cosine, exactly `cos_fx_spec`.
pub fn cos_fx(a: i64) -> (r: i64)
    requires
        -ANGLE_MAX + DEG_90 <= a <= ANGLE_MAX - DEG_90,
    ensures
        r as int == cos_fx_spec(a as int),
        -FX_ONE <= r <= FX_ONE,
{
    sin_fx(a + DEG_90)
}

} // verus!
