//! Fixed-point scalar arithmetic: all angles are millidegrees and all other
//! quantities carry three decimal places (`FX_ONE` is 1.0).  The sine uses
//! the classical Bhaskara quotient, which is exact at every quarter turn.

use vstd::prelude::*;

verus! {

use vstd::arithmetic::div_mod::{
    lemma_div_is_ordered, lemma_div_multiples_vanish, lemma_div_nonincreasing,
    lemma_div_of0, lemma_div_pos_is_pos, lemma_fundamental_div_mod,
    lemma_fundamental_div_mod_converse,
};
use vstd::arithmetic::mul::lemma_mul_upper_bound;

/// One whole unit: fixed-point values carry three decimal places.
pub const FX_ONE: i64 = 1000;

/// Millidegrees in a full turn.
pub const FULL_TURN: i64 = 360000;

/// Millidegrees in a half turn.
pub const HALF_TURN: i64 = 180000;

/// Millidegrees in a quarter turn.
pub const QUARTER_TURN: i64 = 90000;

/// Division by a positive divisor that rounds toward zero, the rounding the
/// executable arithmetic in this crate uses for signed values.
pub open spec fn tdiv(a: int, d: int) -> int {
    if a >= 0 {
        a / d
    } else {
        -((-a) / d)
    }
}

/// Fixed-point product: multiply, then drop three decimal places.
pub open spec fn fx_mul(a: int, b: int) -> int {
    tdiv(a * b, 1000)
}

/// Bhaskara's sine quotient on `[0, HALF_TURN]` millidegrees, scaled so that
/// a quarter turn maps exactly to `FX_ONE`.
pub open spec fn sin_half_spec(x: int) -> int {
    (4000 * (x * (180000 - x))) / (40500000000 - x * (180000 - x))
}

/// Fixed-point sine of an angle in millidegrees.
pub open spec fn sin_fx_spec(a: int) -> int {
    let r = a % 360000;
    if r <= 180000 {
        sin_half_spec(r)
    } else {
        -sin_half_spec(r - 180000)
    }
}

/// Fixed-point cosine of an angle in millidegrees.
pub open spec fn cos_fx_spec(a: int) -> int {
    sin_fx_spec(a + 90000)
}

/// An angle folded into `[-HALF_TURN, HALF_TURN)`; orientation is a function
/// of the angle modulo a full turn, so folding never changes it.
pub open spec fn wrap_angle(a: int) -> int {
    ((a + 180000) % 360000) - 180000
}

/// Euclidean remainder of an angle by a full turn.
pub fn emod_turn(a: i64) -> (r: i64)
    requires
        a > i64::MIN,
    ensures
        0 <= r < 360000,
        r == (a as int) % 360000,
{
    if a >= 0 {
        ((a as u64) % 360000) as i64
    } else {
        let n: u64 = (-a) as u64;
        let k: u64 = n % 360000;
        proof {
            lemma_fundamental_div_mod(n as int, 360000);
        }
        if k == 0 {
            proof {
                lemma_fundamental_div_mod_converse(
                    a as int,
                    360000,
                    -((n as int) / 360000),
                    0,
                );
            }
            0
        } else {
            proof {
                lemma_fundamental_div_mod_converse(
                    a as int,
                    360000,
                    -((n as int) / 360000) - 1,
                    360000 - (k as int),
                );
            }
            (360000 - k) as i64
        }
    }
}

/// Truncating division by a positive divisor.
pub fn tdiv_fx(a: i64, d: u64) -> (r: i64)
    requires
        0 < d <= i64::MAX,
        a > i64::MIN,
    ensures
        r == tdiv(a as int, d as int),
        a >= 0 ==> 0 <= r <= a,
        a < 0 ==> a <= r <= 0,
{
    if a >= 0 {
        let q: u64 = (a as u64) / d;
        proof {
            lemma_div_nonincreasing(a as int, d as int);
            lemma_div_pos_is_pos(a as int, d as int);
        }
        q as i64
    } else {
        let n: u64 = (-a) as u64;
        let q: u64 = n / d;
        proof {
            lemma_div_nonincreasing(n as int, d as int);
            lemma_div_pos_is_pos(n as int, d as int);
        }
        -(q as i64)
    }
}

/// Fixed-point multiplication of two values of at most one million units.
pub fn fx_mul_fx(a: i64, b: i64) -> (r: i64)
    requires
        -1000000000 <= a <= 1000000000,
        -1000000000 <= b <= 1000000000,
    ensures
        r == fx_mul(a as int, b as int),
        -1000000000000000000 <= r <= 1000000000000000000,
        (-1000 <= a <= 1000 && -1000 <= b <= 1000) ==> -1000 <= r <= 1000,
{
    proof {
        assert((a as int) * (b as int) <= 1000000000000000000
            && (a as int) * (b as int) >= -1000000000000000000) by (nonlinear_arith)
            requires
                -1000000000 <= a as int <= 1000000000,
                -1000000000 <= b as int <= 1000000000,
        ;
    }
    let p: i64 = a * b;
    proof {
        if -1000 <= a && a <= 1000 && -1000 <= b && b <= 1000 {
            assert(-1000000 <= (a as int) * (b as int) <= 1000000) by (nonlinear_arith)
                requires
                    -1000 <= a as int <= 1000,
                    -1000 <= b as int <= 1000,
            ;
            lemma_tdiv_bound(p as int, 1000, 1000);
        }
    }
    tdiv_fx(p, 1000)
}

fn sin_half(x: i64) -> (r: i64)
    requires
        0 <= x <= 180000,
    ensures
        r == sin_half_spec(x as int),
        0 <= r <= 1000,
{
    let xu: u64 = x as u64;
    proof {
        lemma_mul_upper_bound(xu as int, 180000, (180000 - xu) as int, 180000);
        assert((xu as int) * ((180000 - xu) as int) <= 8100000000) by (nonlinear_arith)
            requires
                0 <= xu as int <= 180000,
        ;
    }
    let p: u64 = xu * (180000 - xu);
    let num: u64 = 4000 * p;
    let den: u64 = 40500000000 - p;
    let q: u64 = num / den;
    proof {
        assert(num as int <= 1000 * (den as int));
        lemma_div_is_ordered(num as int, 1000 * (den as int), den as int);
        lemma_div_multiples_vanish(1000, den as int);
    }
    q as i64
}

/// Fixed-point sine of an angle in millidegrees.
pub fn sin_fx(a: i64) -> (r: i64)
    requires
        a > i64::MIN,
    ensures
        r == sin_fx_spec(a as int),
        -1000 <= r <= 1000,
{
    let m = emod_turn(a);
    if m <= 180000 {
        sin_half(m)
    } else {
        let s = sin_half(m - 180000);
        -s
    }
}

/// Fixed-point cosine of an angle in millidegrees.
pub fn cos_fx(a: i64) -> (r: i64)
    requires
        -1000000000000 <= a <= 1000000000000,
    ensures
        r == cos_fx_spec(a as int),
        -1000 <= r <= 1000,
{
    sin_fx(a + 90000)
}

/// An angle folded into `[-HALF_TURN, HALF_TURN)`.
pub fn wrap_angle_fx(a: i64) -> (r: i64)
    requires
        a <= i64::MAX - 180000,
    ensures
        r == wrap_angle(a as int),
        -180000 <= r < 180000,
{
    let m = emod_turn(a + 180000);
    m - 180000
}

/// A truncating quotient is bounded by any bound on the dividend divided by
/// the divisor.
pub proof fn lemma_tdiv_bound(a: int, bound: int, d: int)
    requires
        d > 0,
        bound >= 0,
        -(bound * d) <= a <= bound * d,
    ensures
        -bound <= tdiv(a, d) <= bound,
{
    lemma_div_multiples_vanish(bound, d);
    assert(bound * d == d * bound);
    if a >= 0 {
        lemma_div_is_ordered(a, bound * d, d);
        lemma_div_pos_is_pos(a, d);
    } else {
        lemma_div_is_ordered(-a, bound * d, d);
        lemma_div_pos_is_pos(-a, d);
    }
}

/// The sine vanishes at zero, at a half turn, and at a full turn.
pub proof fn lemma_sin_zeros()
    ensures
        sin_fx_spec(0) == 0,
        sin_fx_spec(180000) == 0,
        sin_fx_spec(360000) == 0,
{
    lemma_div_of0(40500000000);
    assert(0int % 360000 == 0);
    assert(180000int % 360000 == 180000);
    assert(360000int % 360000 == 0) by {
        lemma_fundamental_div_mod_converse(360000, 360000, 1, 0);
    }
    assert(sin_half_spec(0) == 0);
    assert(sin_half_spec(180000) == 0);
}

/// The sine is exactly one at a quarter turn and exactly minus one at three
/// quarters of a turn.
pub proof fn lemma_sin_quarter_turns()
    ensures
        sin_fx_spec(90000) == 1000,
        sin_fx_spec(270000) == -1000,
        sin_fx_spec(-90000) == -1000,
{
    assert(90000int % 360000 == 90000);
    assert(270000int % 360000 == 270000);
    assert((-90000int) % 360000 == 270000) by {
        lemma_fundamental_div_mod_converse(-90000, 360000, -1, 270000);
    }
    assert(90000int * (180000 - 90000) == 8100000000);
    assert(sin_half_spec(90000) == 32400000000000int / 32400000000int);
    assert(32400000000000int / 32400000000int == 1000) by {
        lemma_div_multiples_vanish(1000, 32400000000);
    }
}

/// Cosine values at the reference angles: one at zero, zero at either
/// quarter turn.
pub proof fn lemma_cos_reference()
    ensures
        cos_fx_spec(0) == 1000,
        cos_fx_spec(90000) == 0,
        cos_fx_spec(-90000) == 0,
{
    lemma_sin_quarter_turns();
    lemma_sin_zeros();
}

} // verus!
