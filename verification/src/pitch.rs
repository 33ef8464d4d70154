//! Pitch mapper: linear interpolation between two frequency endpoints,
//! driven by the pitch envelope's output level.

use vstd::prelude::*;
use vstd::arithmetic::div_mod::lemma_div_is_ordered;
use vstd::arithmetic::div_mod::lemma_div_multiples_vanish;
use vstd::arithmetic::div_mod::lemma_div_pos_is_pos;
use vstd::arithmetic::mul::lemma_mul_upper_bound;
use crate::LEVEL_SCALE;

verus! {

/// Mathematical value of `lerp(t, a, b)`: `a + (b - a) * t / LEVEL_SCALE`
/// rounded toward `a`, for any order of `a` and `b`.
pub open spec fn lerp_spec(t: int, a: int, b: int) -> int {
    if b >= a {
        a + (b - a) * t / (LEVEL_SCALE as int)
    } else {
        a - (a - b) * t / (LEVEL_SCALE as int)
    }
}

/// Fixed-point linear interpolation from `a` (at `t == 0`) to `b`
/// (at `t == LEVEL_SCALE`). The voice controller maps the pitch envelope's
/// output `t` to a frequency between the configured endpoints with
/// `lerp(t, end_freq, start_freq)`, so the sweep sits at `start_freq` while
/// the envelope is at full level and glides to `end_freq` as it decays to
/// zero. The rounding error is below one fixed-point unit of `a` and `b`.
pub fn lerp(t: u64, a: u64, b: u64) -> (r: u64)
    requires
        t <= LEVEL_SCALE,
    ensures
        r == lerp_spec(t as int, a as int, b as int),
        a <= b ==> a <= r <= b,
        b <= a ==> b <= r <= a,
        t == 0 ==> r == a,
        t == LEVEL_SCALE ==> r == b,
{
    proof {
        lemma_lerp_spec_bounds(t as int, a as int, b as int);
    }
    if b >= a {
        let diff: u128 = (b - a) as u128;
        let q: u128 = diff * (t as u128) / (LEVEL_SCALE as u128);
        proof {
            lemma_scaled_fraction_le(diff as int, t as int);
        }
        a + (q as u64)
    } else {
        let diff: u128 = (a - b) as u128;
        let q: u128 = diff * (t as u128) / (LEVEL_SCALE as u128);
        proof {
            lemma_scaled_fraction_le(diff as int, t as int);
        }
        a - (q as u64)
    }
}

/// For `0 <= t <= LEVEL_SCALE` and `0 <= d`, the scaled product
/// `d * t / LEVEL_SCALE` lies in `[0, d]`, reaching `d` exactly at
/// `t == LEVEL_SCALE` and `0` at `t == 0`.
proof fn lemma_scaled_fraction_le(d: int, t: int)
    requires
        0 <= d,
        0 <= t <= LEVEL_SCALE,
    ensures
        0 <= d * t / (LEVEL_SCALE as int) <= d,
        t == LEVEL_SCALE ==> d * t / (LEVEL_SCALE as int) == d,
        t == 0 ==> d * t / (LEVEL_SCALE as int) == 0,
{
    let s = LEVEL_SCALE as int;
    lemma_mul_upper_bound(d, d, t, s);
    lemma_div_is_ordered(d * t, d * s, s);
    lemma_div_multiples_vanish(d, s);
    assert(d * s == s * d) by (nonlinear_arith);
    assert(d * t >= 0) by (nonlinear_arith)
        requires
            0 <= d,
            0 <= t,
    ;
    if d * t > 0 {
        lemma_div_pos_is_pos(d * t, s);
    }
    assert(d * 0 == 0) by (nonlinear_arith);
}

/// The interpolated value always lies between the two endpoints.
proof fn lemma_lerp_spec_bounds(t: int, a: int, b: int)
    requires
        0 <= t <= LEVEL_SCALE,
        0 <= a,
        0 <= b,
    ensures
        a <= b ==> a <= lerp_spec(t, a, b) <= b,
        b <= a ==> b <= lerp_spec(t, a, b) <= a,
        t == 0 ==> lerp_spec(t, a, b) == a,
        t == LEVEL_SCALE ==> lerp_spec(t, a, b) == b,
{
    if b >= a {
        lemma_scaled_fraction_le(b - a, t);
    } else {
        lemma_scaled_fraction_le(a - b, t);
    }
}

} // verus!
