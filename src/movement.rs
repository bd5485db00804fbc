//! One tick of the camera update loop.
//!
//! Zoom changes only by a fixed factor per tick, so it is held exactly as an
//! integer exponent: the zoom is `ZOOM_BASE * ZOOM_STEP.pow(zoom_exp)`, with
//! a base of 0.5 and a step of 1.1 (the renderer turns the exponent into a
//! float). "Zoom in" lowers the exponent, "zoom out" raises it. Pan moves by a
//! direction of -1, 0 or 1 on each axis, scaled by the zoom after this tick's
//! change, so its float sum also lives with the renderer.

use crate::input::{BTKey, PKeys};
use vstd::arithmetic::power::{lemma_pow_adds, lemma_pow_positive, pow};
use vstd::prelude::*;

verus! {

/// The largest exponent: zoom out applies only while the zoom is below 2,
/// that is while the exponent is below this one (0.5 * 1.1^15 is about 2.09).
pub const ZOOM_OUT_LIMIT: i32 = 15;

/// The smallest exponent, so that zoom never reaches zero
/// (0.5 * 1.1^-800 is about 3e-34, still a normal `f32`).
pub const ZOOM_IN_LIMIT: i32 = -800;

/// The length of one tick in microseconds (200 ticks a second).
pub const TICK_MICROS: u64 = 5000;

/// The exponent after one tick with `keys` held: zoom in first, then zoom
/// out, each only while the limit on its side is not reached.
pub open spec fn next_zoom_exp(exp: int, keys: Set<BTKey>) -> int {
    let e = if keys.contains(BTKey::W) && exp > ZOOM_IN_LIMIT {
        exp - 1
    } else {
        exp
    };
    if keys.contains(BTKey::S) && e < ZOOM_OUT_LIMIT {
        e + 1
    } else {
        e
    }
}

/// The pan direction on one axis: 1 toward `pos`, -1 toward `neg`, 0 for
/// both or neither.
pub open spec fn axis(neg: bool, pos: bool) -> int {
    (if pos {
        1int
    } else {
        0int
    }) - (if neg {
        1int
    } else {
        0int
    })
}

/// What one tick does to the view.
#[derive(Clone, Copy, Debug, PartialEq, Eq, Structural)]
pub struct TickPlan {
    /// The zoom exponent after the tick.
    pub zoom_exp: i32,
    /// Pan direction on x: -1 (left), 0 or 1 (right).
    pub pan_x: i32,
    /// Pan direction on y: -1 (up), 0 or 1 (down).
    pub pan_y: i32,
}

/// Decides one tick: none once exit is requested, which ends the loop; else
/// the new zoom exponent and the pan directions for the held keys.
pub fn plan_tick(exit_requested: bool, zoom_exp: i32, keys: &PKeys) -> (r: Option<TickPlan>)
    ensures
        exit_requested <==> r is None,
        r matches Some(p) ==> {
            &&& p.zoom_exp == next_zoom_exp(zoom_exp as int, keys@)
            &&& p.pan_x == axis(keys@.contains(BTKey::LFT), keys@.contains(BTKey::RGT))
            &&& p.pan_y == axis(keys@.contains(BTKey::UP), keys@.contains(BTKey::DWN))
        },
{
    if exit_requested {
        return None;
    }
    let mut exp = zoom_exp;
    if keys.contains(BTKey::W) && exp > ZOOM_IN_LIMIT {
        exp = exp - 1;
    }
    if keys.contains(BTKey::S) && exp < ZOOM_OUT_LIMIT {
        exp = exp + 1;
    }
    let mut pan_x: i32 = 0;
    if keys.contains(BTKey::LFT) {
        pan_x = pan_x - 1;
    }
    if keys.contains(BTKey::RGT) {
        pan_x = pan_x + 1;
    }
    let mut pan_y: i32 = 0;
    if keys.contains(BTKey::UP) {
        pan_y = pan_y - 1;
    }
    if keys.contains(BTKey::DWN) {
        pan_y = pan_y + 1;
    }
    Some(TickPlan { zoom_exp: exp, pan_x, pan_y })
}

/// How long to sleep after a tick that took `elapsed_micros`: the rest of the
/// tick, or none when the tick overran (the loop then reports that it falls
/// behind and starts the next tick at once, with no catch-up).
pub fn sleep_after(elapsed_micros: u64) -> (r: Option<u64>)
    ensures
        elapsed_micros <= TICK_MICROS ==> r == Some((TICK_MICROS - elapsed_micros) as u64),
        elapsed_micros > TICK_MICROS ==> r is None,
{
    if elapsed_micros <= TICK_MICROS {
        Some(TICK_MICROS - elapsed_micros)
    } else {
        None
    }
}

/// The exponent after one tick per entry of `ticks`, each the set of keys
/// held during that tick.
pub open spec fn zoom_exp_after(exp: int, ticks: Seq<Set<BTKey>>) -> int
    decreases ticks.len(),
{
    if ticks.len() == 0 {
        exp
    } else {
        next_zoom_exp(zoom_exp_after(exp, ticks.drop_last()), ticks.last())
    }
}

/// The numerator of the zoom at `exp` as an exact fraction:
/// 0.5 * 1.1^exp is 11^exp / (2 * 10^exp), and 10^-exp / (2 * 11^-exp) for a
/// negative exponent.
pub open spec fn zoom_num(exp: int) -> int {
    if exp >= 0 {
        pow(11, exp as nat)
    } else {
        pow(10, (-exp) as nat)
    }
}

/// The denominator matching `zoom_num`.
pub open spec fn zoom_den(exp: int) -> int {
    2 * if exp >= 0 {
        pow(10, exp as nat)
    } else {
        pow(11, (-exp) as nat)
    }
}

proof fn lemma_pow_ten_le_eleven(k: nat)
    ensures
        0 < pow(10, k) <= pow(11, k),
    decreases k,
{
    reveal(pow);
    lemma_pow_positive(10, k);
    if k > 0 {
        let j = (k - 1) as nat;
        lemma_pow_ten_le_eleven(j);
        let (a, b) = (pow(10, j), pow(11, j));
        assert(10 * a <= 11 * b) by (nonlinear_arith)
            requires
                0 < a <= b,
        ;
    }
}

/// Within the limits the zoom is a positive fraction no greater than the
/// zoom at the zoom-out limit.
pub proof fn lemma_zoom_in_range(exp: int)
    requires
        ZOOM_IN_LIMIT <= exp <= ZOOM_OUT_LIMIT,
    ensures
        zoom_num(exp) > 0,
        zoom_den(exp) > 0,
        zoom_num(exp) * zoom_den(ZOOM_OUT_LIMIT as int) <= zoom_num(ZOOM_OUT_LIMIT as int)
            * zoom_den(exp),
{
    let top = ZOOM_OUT_LIMIT as nat;
    lemma_pow_ten_le_eleven(top);
    lemma_pow_positive(11, top);
    if exp >= 0 {
        let e = exp as nat;
        let k = (top - e) as nat;
        lemma_pow_adds(11, e, k);
        lemma_pow_adds(10, e, k);
        lemma_pow_ten_le_eleven(k);
        lemma_pow_ten_le_eleven(e);
        lemma_pow_positive(11, e);
        let (p11e, p10e, p11k, p10k) = (pow(11, e), pow(10, e), pow(11, k), pow(10, k));
        assert(p11e * (2 * (p10e * p10k)) <= (p11e * p11k) * (2 * p10e)) by (nonlinear_arith)
            requires
                p11e > 0,
                p10e > 0,
                0 < p10k <= p11k,
        ;
    } else {
        let m = (-exp) as nat;
        lemma_pow_ten_le_eleven(m);
        let (p10m, p11m, a, b) = (pow(10, m), pow(11, m), pow(11, top), pow(10, top));
        assert(p10m * (2 * b) <= a * (2 * p11m)) by (nonlinear_arith)
            requires
                0 < p10m <= p11m,
                0 < b <= a,
        ;
    }
}

/// From any exponent within the limits, no run of ticks, whatever keys they
/// hold, takes the exponent out of them, so the zoom stays above zero and at
/// most the zoom at the zoom-out limit.
pub proof fn lemma_zoom_stays_in_limits(exp: int, ticks: Seq<Set<BTKey>>)
    requires
        ZOOM_IN_LIMIT <= exp <= ZOOM_OUT_LIMIT,
    ensures
        ZOOM_IN_LIMIT <= zoom_exp_after(exp, ticks) <= ZOOM_OUT_LIMIT,
        zoom_num(zoom_exp_after(exp, ticks)) > 0,
        zoom_den(zoom_exp_after(exp, ticks)) > 0,
        zoom_num(zoom_exp_after(exp, ticks)) * zoom_den(ZOOM_OUT_LIMIT as int) <= zoom_num(
            ZOOM_OUT_LIMIT as int,
        ) * zoom_den(zoom_exp_after(exp, ticks)),
    decreases ticks.len(),
{
    if ticks.len() > 0 {
        lemma_zoom_stays_in_limits(exp, ticks.drop_last());
    }
    lemma_zoom_in_range(zoom_exp_after(exp, ticks));
}

} // verus!
