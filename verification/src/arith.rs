//! Integer division with explicit rounding, on 128-bit operands.

use vstd::prelude::*;

verus! {

/// The magnitude of `x`.
#[verifier::inline]
pub open spec fn abs_int(x: int) -> int {
    if x < 0 {
        -x
    } else {
        x
    }
}

/// Whether `x` can be held in an `i128`.
pub open spec fn fits_i128(x: int) -> bool {
    i128::MIN <= x <= i128::MAX
}

/// The quotient of `x` by `d`, rounded toward zero.
pub open spec fn trunc_div(x: int, d: int) -> int
    recommends
        d != 0,
{
    let q = abs_int(x) / abs_int(d);
    if (x < 0) == (d < 0) {
        q
    } else {
        -q
    }
}

/// The quotient of `x` by `d`, rounded to the nearest integer; a tie goes
/// away from zero.
pub open spec fn round_div(x: int, d: int) -> int
    recommends
        d != 0,
{
    let q = abs_int(x) / abs_int(d);
    let r = abs_int(x) % abs_int(d);
    let m = if 2 * r >= abs_int(d) {
        q + 1
    } else {
        q
    };
    if (x < 0) == (d < 0) {
        m
    } else {
        -m
    }
}

/// What `mul_div_trunc` returns: the truncated quotient of `a * b` by `d`,
/// unless `d` is zero or the product or the quotient leaves the `i128` range.
pub open spec fn mul_div_trunc_spec(a: int, b: int, d: int) -> Option<int> {
    if d == 0 || !fits_i128(a * b) || !fits_i128(trunc_div(a * b, d)) {
        None
    } else {
        Some(trunc_div(a * b, d))
    }
}

/// What `div_round` returns: the rounded quotient of `x` by `d`, unless `d`
/// is zero or the quotient leaves the `i128` range.
pub open spec fn div_round_spec(x: int, d: int) -> Option<int> {
    if d == 0 || !fits_i128(round_div(x, d)) {
        None
    } else {
        Some(round_div(x, d))
    }
}

/// Whether a computed result is exactly the integer, or the absence of one,
/// that its model gives.
pub open spec fn holds(r: Option<i128>, v: Option<int>) -> bool {
    match (r, v) {
        (Some(x), Some(y)) => x == y,
        (None, None) => true,
        _ => false,
    }
}

fn magnitude(x: i128) -> (m: u128)
    ensures
        m == abs_int(x as int),
{
    if x >= 0 {
        x as u128
    } else {
        let y: i128 = -(x + 1);
        (y as u128) + 1
    }
}

fn signed(negative: bool, m: u128) -> (r: Option<i128>)
    ensures
        holds(
            r,
            if fits_i128(if negative { -(m as int) } else { m as int }) {
                Some(if negative { -(m as int) } else { m as int })
            } else {
                None
            },
        ),
{
    let top: u128 = 0x8000_0000_0000_0000_0000_0000_0000_0000u128;
    if negative {
        if m > top {
            None
        } else if m == top {
            Some(i128::MIN)
        } else {
            let v: i128 = m as i128;
            Some(-v)
        }
    } else {
        if m >= top {
            None
        } else {
            Some(m as i128)
        }
    }
}

/// `a * b / d`, rounded toward zero.
pub fn mul_div_trunc(a: i128, b: i128, d: i128) -> (r: Option<i128>)
    ensures
        holds(r, mul_div_trunc_spec(a as int, b as int, d as int)),
{
    if d == 0 {
        return None;
    }
    match a.checked_mul(b) {
        None => None,
        Some(p) => {
            let q: u128 = magnitude(p) / magnitude(d);
            signed((p < 0) != (d < 0), q)
        },
    }
}

/// `x / d`, rounded to the nearest integer, a tie away from zero.
pub fn div_round(x: i128, d: i128) -> (r: Option<i128>)
    ensures
        holds(r, div_round_spec(x as int, d as int)),
{
    if d == 0 {
        return None;
    }
    let mx: u128 = magnitude(x);
    let md: u128 = magnitude(d);
    let q: u128 = mx / md;
    let rem: u128 = mx % md;
    let m: u128 = if rem >= md - rem {
        q + 1
    } else {
        q
    };
    signed((x < 0) != (d < 0), m)
}

/// Rounding toward zero never overshoots: the quotient times the divisor
/// is no further from zero than the dividend, on the same side of zero, and
/// less than one divisor short of it.
pub proof fn lemma_trunc_div_bounds(x: int, d: int)
    requires
        d != 0,
    ensures
        abs_int(trunc_div(x, d) * d) <= abs_int(x) < abs_int(trunc_div(x, d) * d) + abs_int(d),
        x >= 0 ==> trunc_div(x, d) * d >= 0,
        x <= 0 ==> trunc_div(x, d) * d <= 0,
{
    let ax = abs_int(x);
    let ad = abs_int(d);
    let q = ax / ad;
    vstd::arithmetic::div_mod::lemma_fundamental_div_mod(ax, ad);
    vstd::arithmetic::div_mod::lemma_mod_bound(ax, ad);
    vstd::arithmetic::div_mod::lemma_div_pos_is_pos(ax, ad);
    assert(trunc_div(x, d) * d == (if x < 0 {
        -(q * ad)
    } else {
        q * ad
    })) by (nonlinear_arith)
        requires
            ad == abs_int(d),
            d != 0,
            trunc_div(x, d) == (if (x < 0) == (d < 0) {
                q
            } else {
                -q
            }),
    ;
    assert(q * ad >= 0) by (nonlinear_arith)
        requires
            q >= 0,
            ad > 0,
    ;
    assert(ad * q == q * ad) by (nonlinear_arith);
}

/// Rounding to the nearest lands within half a divisor of the dividend.
pub proof fn lemma_round_div_is_nearest(x: int, d: int)
    requires
        d != 0,
    ensures
        2 * abs_int(x - round_div(x, d) * d) <= abs_int(d),
{
    let ax = abs_int(x);
    let ad = abs_int(d);
    let q = ax / ad;
    let r = ax % ad;
    let m = if 2 * r >= ad {
        q + 1
    } else {
        q
    };
    vstd::arithmetic::div_mod::lemma_fundamental_div_mod(ax, ad);
    vstd::arithmetic::div_mod::lemma_mod_bound(ax, ad);
    assert(round_div(x, d) * d == (if x < 0 {
        -(m * ad)
    } else {
        m * ad
    })) by (nonlinear_arith)
        requires
            ad == abs_int(d),
            d != 0,
            round_div(x, d) == (if (x < 0) == (d < 0) {
                m
            } else {
                -m
            }),
    ;
    assert(m * ad == q * ad + (if 2 * r >= ad {
        ad
    } else {
        0
    })) by (nonlinear_arith)
        requires
            m == (if 2 * r >= ad {
                q + 1
            } else {
                q
            }),
    ;
    assert(ad * q == q * ad) by (nonlinear_arith);
}

/// A tie goes away from zero: a dividend that is an odd multiple of half the
/// divisor is rounded to the quotient of greater magnitude.
pub proof fn lemma_round_div_tie_goes_away(k: int, d: int)
    requires
        d != 0,
        k >= 0,
    ensures
        round_div((2 * k + 1) * d, 2 * d) == k + 1,
        round_div(-((2 * k + 1) * d), 2 * d) == -(k + 1),
{
    let ad = abs_int(d);
    let x = (2 * k + 1) * d;
    assert(abs_int(x) == (2 * k + 1) * ad && abs_int(-x) == (2 * k + 1) * ad && ((x < 0) == (d
        < 0)) && ((-x < 0) != (2 * d < 0))) by (nonlinear_arith)
        requires
            x == (2 * k + 1) * d,
            ad == abs_int(d),
            d != 0,
            k >= 0,
    ;
    assert((2 * k + 1) * ad == k * (2 * ad) + ad) by (nonlinear_arith);
    vstd::arithmetic::div_mod::lemma_fundamental_div_mod_converse(
        (2 * k + 1) * ad,
        2 * ad,
        k,
        ad,
    );
}

} // verus!
