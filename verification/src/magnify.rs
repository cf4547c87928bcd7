//! Magnification model: pointer position to per-icon scale factors.
//!
//! When the pointer is absent every icon has scale one. When it is present,
//! an icon's scale grows with the pointer's proximity to the icon's center,
//! following a bell-shaped falloff in the squared distance: the scale is
//! `SCALE_ONE + falloff(d^2)` where `falloff` is a rational approximation of
//! `(MAX_SCALE - SCALE_ONE) * exp(-d^2 / (2 sigma^2))` built from the
//! second-order expansion of the exponential,
//! `falloff(d2) = N / (B + 2 K d2 + d2^2)` with `K = 2 sigma^2`, `B = 2 K^2`
//! and `N = 800 B`. Working in integers makes the model exact: the peak value
//! is reached precisely at the center and nowhere else, the falloff is
//! monotone in the squared distance, and the result is always within
//! `[SCALE_ONE, MAX_SCALE]`.

use vstd::prelude::*;
use vstd::arithmetic::div_mod::{
    lemma_div_is_ordered_by_denominator, lemma_div_pos_is_pos, lemma_multiply_divide_le,
    lemma_multiply_divide_lt, lemma_div_multiples_vanish,
};
use crate::layout::{MAX_SCALE, SCALE_ONE, ICON_SIZE};

verus! {

/// Largest coordinate magnitude the model accepts, in milli-pixels.
/// Two such coordinates may be subtracted and the difference squared
/// without overflowing the machine integers used below.
pub const COORD_LIMIT: i64 = 2_000_000_000_000;

/// Twice the squared Gaussian spread: sigma is 90 pixels, i.e. 90_000
/// milli-pixels, so this is `2 * 90_000^2` in squared milli-pixels.
pub const TWO_SIGMA_SQ: u128 = 16_200_000_000;

/// Base of the falloff denominator: `2 * TWO_SIGMA_SQ^2`.
pub const DENOM_BASE: u128 = 2 * TWO_SIGMA_SQ * TWO_SIGMA_SQ;

/// Numerator of the falloff fraction: `(MAX_SCALE - SCALE_ONE) * DENOM_BASE`,
/// with `MAX_SCALE - SCALE_ONE == 800`.
pub const FALLOFF_NUM: u128 = 800 * DENOM_BASE;

/// Squared distance (in squared milli-pixels) beyond which the falloff is
/// zero anyway, so the fraction need not be evaluated. At this point the
/// denominator already exceeds the numerator.
pub const FALLOFF_CUTOFF: u128 = 650_000_000_000;

/// Denominator of the falloff fraction at squared distance `d2`.
pub open spec fn spec_falloff_denom(d2: int) -> int {
    DENOM_BASE + 2 * TWO_SIGMA_SQ * d2 + d2 * d2
}

/// Extra scale (in milli-units, `0 ..= 800`) contributed by a pointer at
/// squared distance `d2` from an icon's center.
pub open spec fn spec_falloff(d2: int) -> int
    recommends
        d2 >= 0,
{
    if d2 >= FALLOFF_CUTOFF {
        0
    } else {
        FALLOFF_NUM as int / spec_falloff_denom(d2)
    }
}

/// Scale (milli-units) of an icon centered at `center` under a pointer at `x`.
pub open spec fn spec_scale_at(center: int, x: int) -> int {
    SCALE_ONE + spec_falloff((x - center) * (x - center))
}

/// Scale of an icon centered at `center` for an optional pointer position:
/// exactly one when the pointer is absent.
pub open spec fn spec_scale_opt(center: int, pointer: Option<i64>) -> int {
    match pointer {
        None => SCALE_ONE as int,
        Some(x) => spec_scale_at(center, x as int),
    }
}

/// Center of the icon whose left edge is at `base_x` milli-pixels.
pub open spec fn spec_icon_center(base_x: int) -> int {
    base_x + ICON_SIZE / 2
}

/// The falloff lies in `[0, 800]`; it is exactly `800` at the center and
/// strictly below `800` anywhere else.
pub proof fn lemma_falloff_range(d2: int)
    requires
        d2 >= 0,
    ensures
        0 <= spec_falloff(d2) <= 800,
        d2 == 0 ==> spec_falloff(d2) == 800,
        d2 > 0 ==> spec_falloff(d2) < 800,
{
    if d2 < FALLOFF_CUTOFF {
        assert(2 * TWO_SIGMA_SQ * d2 >= 0) by (nonlinear_arith)
            requires d2 >= 0;
        assert(d2 * d2 >= 0) by (nonlinear_arith);
        lemma_div_pos_is_pos(FALLOFF_NUM as int, spec_falloff_denom(d2));
        if d2 == 0 {
            lemma_div_multiples_vanish(800, DENOM_BASE as int);
        } else {
            assert(2 * TWO_SIGMA_SQ * d2 >= 2 * TWO_SIGMA_SQ) by (nonlinear_arith)
                requires d2 >= 1;
            assert(d2 * d2 >= 1) by (nonlinear_arith)
                requires d2 >= 1;
            assert(FALLOFF_NUM < spec_falloff_denom(d2) * 800);
            lemma_multiply_divide_lt(FALLOFF_NUM as int, spec_falloff_denom(d2), 800);
        }
        assert(FALLOFF_NUM <= spec_falloff_denom(d2) * 800);
        lemma_multiply_divide_le(FALLOFF_NUM as int, spec_falloff_denom(d2), 800);
    }
}

/// The falloff is monotone: it never increases as the squared distance grows.
pub proof fn lemma_falloff_monotone(d2a: int, d2b: int)
    requires
        0 <= d2a <= d2b,
    ensures
        spec_falloff(d2a) >= spec_falloff(d2b),
{
    if d2b < FALLOFF_CUTOFF {
        assert(2 * TWO_SIGMA_SQ * d2a >= 0) by (nonlinear_arith)
            requires d2a >= 0;
        assert(d2a * d2a >= 0) by (nonlinear_arith);
        assert(2 * TWO_SIGMA_SQ * d2a <= 2 * TWO_SIGMA_SQ * d2b && d2a * d2a <= d2b * d2b)
            by (nonlinear_arith)
            requires 0 <= d2a <= d2b;
        lemma_div_is_ordered_by_denominator(
            FALLOFF_NUM as int,
            spec_falloff_denom(d2a),
            spec_falloff_denom(d2b),
        );
    } else {
        lemma_falloff_range(d2a);
    }
}

/// An icon's scale peaks exactly at its center: the scale is `MAX_SCALE`
/// when the pointer sits on the center and strictly between `SCALE_ONE`
/// (inclusive) and `MAX_SCALE` anywhere else.
pub proof fn lemma_scale_peak(center: int, x: int)
    ensures
        spec_scale_at(center, center) == MAX_SCALE,
        x != center ==> SCALE_ONE <= spec_scale_at(center, x) < MAX_SCALE,
{
    let d = x - center;
    assert(d != 0 ==> d * d > 0) by (nonlinear_arith);
    assert(d * d >= 0) by (nonlinear_arith);
    lemma_falloff_range(d * d);
    lemma_falloff_range(0);
}

/// The scale is symmetric about the icon's center: a pointer `d` to the
/// right of the center gives the same scale as a pointer `d` to the left.
pub proof fn lemma_scale_symmetric(center: int, d: int)
    ensures
        spec_scale_at(center, center + d) == spec_scale_at(center, center - d),
{
    assert((center + d - center) * (center + d - center)
        == (center - d - center) * (center - d - center)) by (nonlinear_arith);
}

/// The scale never grows as the pointer moves away from the icon's center.
pub proof fn lemma_scale_monotone(center: int, d1: int, d2: int)
    requires
        0 <= d1 <= d2,
    ensures
        spec_scale_at(center, center + d1) >= spec_scale_at(center, center + d2),
{
    assert((center + d1 - center) * (center + d1 - center) == d1 * d1) by (nonlinear_arith);
    assert((center + d2 - center) * (center + d2 - center) == d2 * d2) by (nonlinear_arith);
    assert(0 <= d1 * d1 <= d2 * d2) by (nonlinear_arith)
        requires 0 <= d1 <= d2;
    lemma_falloff_monotone(d1 * d1, d2 * d2);
}

/// Extra scale for a squared distance, in milli-units.
fn falloff(d2: u128) -> (extra: u32)
    ensures
        extra == spec_falloff(d2 as int),
{
    if d2 >= FALLOFF_CUTOFF {
        0
    } else {
        proof {
            assert((d2 as int) * (d2 as int) < 650_000_000_000 * 650_000_000_000)
                by (nonlinear_arith)
                requires 0 <= (d2 as int) < 650_000_000_000;
        }
        let den: u128 = DENOM_BASE + 2 * TWO_SIGMA_SQ * d2 + d2 * d2;
        let q: u128 = FALLOFF_NUM / den;
        proof {
            lemma_falloff_range(d2 as int);
        }
        q as u32
    }
}

/// Scale (milli-units) of an icon centered at `center` milli-pixels under a
/// pointer at `x` milli-pixels.
pub fn scale_at(center: i64, x: i64) -> (s: u32)
    requires
        -COORD_LIMIT <= center <= COORD_LIMIT,
        -COORD_LIMIT <= x <= COORD_LIMIT,
    ensures
        s == spec_scale_at(center as int, x as int),
        SCALE_ONE <= s <= MAX_SCALE,
{
    let d: i64 = if x >= center {
        x - center
    } else {
        center - x
    };
    proof {
        assert((d as int) * (d as int) <= 4_000_000_000_000 * 4_000_000_000_000)
            by (nonlinear_arith)
            requires 0 <= (d as int) <= 4_000_000_000_000;
    }
    let d2: u128 = (d as u128) * (d as u128);
    proof {
        assert((x - center) * (x - center) == d * d) by (nonlinear_arith)
            requires d == x - center || d == center - x;
        lemma_falloff_range(d2 as int);
    }
    SCALE_ONE + falloff(d2)
}

/// Per-icon scale factors for the given icon centers and pointer position:
/// all ones when the pointer is absent, and the bell-shaped proximity scale
/// when it is present.
pub fn magnify_scales(centers: &Vec<i64>, pointer: Option<i64>) -> (scales: Vec<u32>)
    requires
        forall|i: int| 0 <= i < centers@.len() ==> -COORD_LIMIT <= #[trigger] centers@[i] <= COORD_LIMIT,
        pointer matches Some(x) ==> -COORD_LIMIT <= x <= COORD_LIMIT,
    ensures
        scales@.len() == centers@.len(),
        forall|i: int| 0 <= i < centers@.len()
            ==> #[trigger] scales@[i] == spec_scale_opt(centers@[i] as int, pointer),
        forall|i: int| 0 <= i < centers@.len()
            ==> SCALE_ONE <= #[trigger] scales@[i] <= MAX_SCALE,
{
    let mut scales: Vec<u32> = Vec::new();
    let n = centers.len();
    for k in 0..n
        invariant
            n == centers@.len(),
            scales@.len() == k,
            forall|i: int| 0 <= i < centers@.len() ==> -COORD_LIMIT <= #[trigger] centers@[i] <= COORD_LIMIT,
            pointer matches Some(x) ==> -COORD_LIMIT <= x <= COORD_LIMIT,
            forall|i: int| 0 <= i < k
                ==> #[trigger] scales@[i] == spec_scale_opt(centers@[i] as int, pointer),
            forall|i: int| 0 <= i < k
                ==> SCALE_ONE <= #[trigger] scales@[i] <= MAX_SCALE,
    {
        let s: u32 = match pointer {
            None => SCALE_ONE,
            Some(x) => scale_at(centers[k], x),
        };
        scales.push(s);
    }
    scales
}

} // verus!
