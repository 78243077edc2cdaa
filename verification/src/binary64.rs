//! Exact integer model of the double-precision arithmetic behind the draw
//! ratio.
//!
//! A pass is cut into cycles of `p` samples, of which the first
//! `floor(p × 0.7)` are drawn.  The product is taken in IEEE-754 binary64,
//! where `0.7` is the nearest representable number, a little below seven
//! tenths, and where the product is rounded to 53 significant bits before the
//! floor is taken.  The outcome therefore differs from `7p / 10` for some `p`
//! (the smallest is 90, which gives 62).  This module computes that outcome
//! with integers alone, so that the counts below are exactly those of the
//! floating-point formula.

use vstd::prelude::*;
use vstd::arithmetic::div_mod::lemma_fundamental_div_mod;
use vstd::arithmetic::div_mod::lemma_fundamental_div_mod_converse;

verus! {

/// Two to the power 53: every natural number below it is a binary64 value.
pub const SIGNIFICAND_LIMIT: u128 = 9007199254740992;

/// Two to the power 52, the denominator of [`DRAW_RATIO_NUMERATOR`].
pub const DRAW_RATIO_DENOMINATOR: u128 = 4503599627370496;

/// The binary64 number nearest to 0.7 is this numerator over two to the 52.
pub const DRAW_RATIO_NUMERATOR: u128 = 3152519739159347;

/// Largest argument that [`round_to_double`] accepts: it leaves room for
/// doubling inside 128 bits.
pub const ROUNDING_LIMIT: u128 = 0x1000_0000_0000_0000_0000_0000_0000_0000;

/// Distance between neighbouring binary64 values at the magnitude of `x`:
/// the power of two `s` with `2^52 * s <= x < 2^53 * s`, and 1 below `2^53`.
pub open spec fn spacing(x: nat) -> nat
    decreases x,
{
    if x < 9007199254740992 {
        1
    } else {
        2 * spacing(x / 2)
    }
}

/// The multiple of `s` nearest to `x`; of two equally near ones, the even
/// multiple.
pub open spec fn nearest_multiple(x: nat, s: nat) -> nat {
    let q = x / s;
    let r = x % s;
    if 2 * r > s || (2 * r == s && q % 2 == 1) {
        (q + 1) * s
    } else {
        q * s
    }
}

/// The binary64 value nearest to the natural number `x`, ties to even.
pub open spec fn nearest_double(x: nat) -> nat {
    nearest_multiple(x, spacing(x))
}

/// Number of samples drawn out of a cycle of `p`: the floor of the binary64
/// product of `p` and the binary64 number nearest to 0.7.
pub open spec fn drawn_points(p: nat) -> nat {
    nearest_double(nearest_double(p) * 3152519739159347) / 4503599627370496
}

/// The spacing is positive, and from `2^53` on it is at most `x / 2^52`.
pub proof fn lemma_spacing_bounds(x: nat)
    ensures
        spacing(x) >= 1,
        x < 9007199254740992 ==> spacing(x) == 1,
        x >= 9007199254740992 ==> spacing(x) >= 2 && spacing(x) * 4503599627370496 <= x,
        x < spacing(x) * 9007199254740992,
    decreases x,
{
    if x >= 9007199254740992 {
        lemma_spacing_bounds(x / 2);
    }
}

/// Rounding moves a number by at most half the spacing, and not at all where
/// the spacing is 1.
pub proof fn lemma_nearest_double_error(x: nat)
    ensures
        2 * nearest_double(x) <= 2 * x + spacing(x),
        2 * x <= 2 * nearest_double(x) + spacing(x),
        spacing(x) == 1 ==> nearest_double(x) == x,
{
    let s = spacing(x);
    lemma_spacing_bounds(x);
    lemma_fundamental_div_mod(x as int, s as int);
    let q = x / s;
    let r = x % s;
    assert(0 <= r < s);
    assert(x == s * q + r);
    assert((q + 1) * s == s * q + s) by (nonlinear_arith);
    assert(q * s == s * q) by (nonlinear_arith);
}

/// The rounded number is a binary64 value: a multiple of the spacing with a
/// multiplier of at most `2^53`.
pub proof fn lemma_nearest_double_is_representable(x: nat)
    ensures
        nearest_double(x) % spacing(x) == 0,
        nearest_double(x) / spacing(x) <= 9007199254740992,
{
    let s = spacing(x);
    lemma_spacing_bounds(x);
    lemma_fundamental_div_mod(x as int, s as int);
    let q = x / s;
    let r = x % s;
    assert(q < 9007199254740992) by {
        if q >= 9007199254740992 {
            assert(s * q >= s * 9007199254740992) by (nonlinear_arith)
                requires
                    q >= 9007199254740992,
                    s >= 1,
            ;
        }
    }
    let m: nat = if 2 * r > s || (2 * r == s && q % 2 == 1) {
        q + 1
    } else {
        q
    };
    assert(nearest_double(x) == m * s);
    lemma_fundamental_div_mod_converse((m * s) as int, s as int, m as int, 0);
}

/// No multiple of the spacing is nearer to `x` than the rounded number, and
/// where `x` lies half-way between two of them, the rounded number is the
/// even one.
pub proof fn lemma_nearest_double_is_nearest(x: nat, k: nat)
    ensures
        vstd::math::abs(nearest_double(x) - x) <= vstd::math::abs(k * spacing(x) - x),
        2 * (x % spacing(x)) == spacing(x) ==> (nearest_double(x) / spacing(x)) % 2 == 0,
{
    let s = spacing(x);
    lemma_spacing_bounds(x);
    lemma_fundamental_div_mod(x as int, s as int);
    let q = x / s;
    let r = x % s;
    assert(0 <= r < s);
    assert(x == s * q + r);
    assert((q + 1) * s == s * q + s) by (nonlinear_arith);
    assert(q * s == s * q) by (nonlinear_arith);
    if k <= q {
        assert(k * s <= q * s) by (nonlinear_arith)
            requires
                k <= q,
                s >= 0,
        ;
    } else {
        assert(k * s >= (q + 1) * s) by (nonlinear_arith)
            requires
                k >= q + 1,
                s >= 0,
        ;
    }
    if 2 * r == s {
        let m: nat = if q % 2 == 1 {
            q + 1
        } else {
            q
        };
        assert(nearest_double(x) == m * s);
        lemma_fundamental_div_mod_converse((m * s) as int, s as int, m as int, 0);
    }
}

/// Rounds `x` to the nearest binary64 value, ties to even.
pub fn round_to_double(x: u128) -> (r: u128)
    requires
        x < ROUNDING_LIMIT,
    ensures
        r == nearest_double(x as nat),
{
    let mut y: u128 = x;
    let mut s: u128 = 1;
    while y >= SIGNIFICAND_LIMIT
        invariant
            x < ROUNDING_LIMIT,
            s >= 1,
            s * y <= x,
            x < s * (y + 1),
            spacing(x as nat) == s * spacing(y as nat),
        decreases y,
    {
        let ghost y0 = y;
        let ghost s0 = s;
        proof {
            assert(s0 <= s0 * y0) by (nonlinear_arith)
                requires
                    s0 >= 1,
                    y0 >= 1,
            ;
            assert((2 * s0) * (y0 / 2) <= s0 * y0) by (nonlinear_arith)
                requires
                    s0 >= 1,
                    y0 >= 0,
            ;
            assert(s0 * (y0 + 1) <= (2 * s0) * (y0 / 2 + 1)) by (nonlinear_arith)
                requires
                    s0 >= 1,
                    y0 >= 0,
            ;
            assert(s0 * (2 * spacing((y0 / 2) as nat)) == (2 * s0) * spacing((y0 / 2) as nat))
                by (nonlinear_arith);
        }
        y = y / 2;
        s = s * 2;
    }
    proof {
        assert(spacing(y as nat) == 1);
        assert(s * 1 == s) by (nonlinear_arith);
        assert(s * (y + 1) == s * y + s) by (nonlinear_arith);
        assert(s * y == y * s) by (nonlinear_arith);
        lemma_fundamental_div_mod_converse(x as int, s as int, y as int, x - s * y);
        assert(s <= s * y || y == 0) by (nonlinear_arith)
            requires
                s >= 1,
                y >= 0,
        ;
        assert((y + 1) * s == s * y + s) by (nonlinear_arith);
    }
    let r: u128 = x - s * y;
    if 2 * r > s || (2 * r == s && y % 2 == 1) {
        (y + 1) * s
    } else {
        y * s
    }
}

/// A cycle never draws more samples than it has, and a cycle that has any
/// sample leaves at least one of them out.
pub proof fn lemma_drawn_points_below(p: nat)
    ensures
        drawn_points(p) <= p,
        p >= 1 ==> drawn_points(p) < p,
        nearest_double(p) <= 2 * p,
        nearest_double(nearest_double(p) * 3152519739159347) <= 4503599627370496 * p,
{
    let a = nearest_double(p);
    lemma_nearest_double_error(p);
    lemma_spacing_bounds(p);
    // rounding adds at most half a spacing, which is far less than an eighth
    assert(8 * a <= 9 * p);
    let x = a * 3152519739159347;
    let big = nearest_double(x);
    lemma_nearest_double_error(x);
    lemma_spacing_bounds(x);
    assert(8 * big <= 9 * x);
    assert(64 * big <= 255354098871907107 * p);
    if p >= 1 {
        assert(big < 4503599627370496 * p);
    }
}

/// Up to `2^51` samples per cycle, the drawn count is the floor of seven
/// tenths of the cycle or one less: `7p - 20 < 10 * drawn <= 7p`.  Far above
/// that the product is rounded to whole numbers before the floor is taken,
/// and the count can come out above seven tenths: a cycle of
/// 3351783304518197 samples draws 2346248313162738.
pub proof fn lemma_drawn_points_is_seven_tenths(p: nat)
    requires
        p <= 2251799813685248,
    ensures
        10 * drawn_points(p) <= 7 * p,
        7 * p < 10 * (drawn_points(p) + 2),
{
    lemma_nearest_double_error(p);
    lemma_spacing_bounds(p);
    assert(nearest_double(p) == p);
    let x = p * 3152519739159347;
    let big = nearest_double(x);
    let s = spacing(x);
    lemma_nearest_double_error(x);
    lemma_spacing_bounds(x);
    lemma_fundamental_div_mod(big as int, 4503599627370496);
    // the spacing of the product is less than seven tenths of `p`
    assert(10 * s <= 7 * p || s == 1) by {
        if x >= 9007199254740992 {
            assert(s * 4503599627370496 <= x);
        }
    }
}

/// The number of samples drawn out of a cycle of `p`.
pub fn seventy_percent(p: usize) -> (d: usize)
    ensures
        d == drawn_points(p as nat),
        d <= p,
{
    proof {
        lemma_drawn_points_below(p as nat);
    }
    let a: u128 = round_to_double(p as u128);
    let big: u128 = round_to_double(a * DRAW_RATIO_NUMERATOR);
    let d: u128 = big / DRAW_RATIO_DENOMINATOR;
    d as usize
}

} // verus!
