//! Per-axis motion rules: the input-to-force translation with its speed
//! clamp, the multiplicative drag, the fixed-step position integration, the
//! facing alignment, and the two viewport-driven scale rules.

use vstd::prelude::*;
use vstd::arithmetic::div_mod::{
    lemma_div_nonincreasing, lemma_div_pos_is_pos, lemma_remainder_upper,
};
use crate::math::{clamp_i64, clamp_spec, div_toward_zero, lemma_div_toward_zero_in_range};
use crate::geom::{Rect, Vec2, rect_wf, vec2_bounded};
use crate::params::{
    ACCEL_MU, BG_SCALE_NUM_PM, BULLET_SPEED_MU, COORD_LIMIT_MU, DRAG_DEN, DRAG_KEEP_NUM,
    DT_LIMIT_MS, MAX_SPEED_MU, POS_LIMIT_MU, SCALE_CAP_PM, SCALE_GAIN_PM, SCALE_ONE_PM,
};

verus! {

/// Net acceleration on one axis from the two opposing held directions.
pub open spec fn accel_delta_spec(dec: bool, inc: bool) -> int {
    (if inc {
        ACCEL_MU as int
    } else {
        0
    }) - (if dec {
        ACCEL_MU as int
    } else {
        0
    })
}

/// One axis of the input-to-force translation: the held-direction
/// acceleration applied to the velocity, then clamped to the speed limit.
pub open spec fn steer_axis_spec(v: int, dec: bool, inc: bool) -> int {
    clamp_spec(v + accel_delta_spec(dec, inc), -(MAX_SPEED_MU as int), MAX_SPEED_MU as int)
}

/// Apply held-direction acceleration to one velocity axis and clamp it.
/// After this step the axis speed never exceeds the clamp.
pub fn steer_axis(v: i64, dec: bool, inc: bool) -> (r: i64)
    requires
        v + ACCEL_MU <= i64::MAX,
        i64::MIN <= v - ACCEL_MU,
    ensures
        r == steer_axis_spec(v as int, dec, inc),
        -MAX_SPEED_MU <= r <= MAX_SPEED_MU,
{
    let mut a = v;
    if dec {
        a = a - ACCEL_MU;
    }
    if inc {
        a = a + ACCEL_MU;
    }
    clamp_i64(a, -MAX_SPEED_MU, MAX_SPEED_MU)
}

/// One axis of the drag step: the velocity keeps 995/1000 of its value,
/// rounded toward zero.
pub open spec fn drag_axis_spec(v: int) -> int {
    div_toward_zero(v * DRAG_KEEP_NUM, DRAG_DEN as int)
}

pub fn drag_axis(v: i64) -> (r: i64)
    requires
        -9_000_000_000_000_000 <= v <= 9_000_000_000_000_000,
    ensures
        r == drag_axis_spec(v as int),
{
    if v >= 0 {
        (v * DRAG_KEEP_NUM) / DRAG_DEN
    } else {
        -(((-v) * DRAG_KEEP_NUM) / DRAG_DEN)
    }
}

/// Drag is a strict contraction toward zero: on a non-zero axis velocity
/// it strictly decreases the magnitude and never reverses the sign, so
/// repeated drag steps drive the velocity monotonically to zero; zero is
/// its fixed point.
pub proof fn lemma_drag_monotone(v: int)
    ensures
        v > 0 ==> 0 <= drag_axis_spec(v) < v,
        v < 0 ==> v < drag_axis_spec(v) <= 0,
        v == 0 ==> drag_axis_spec(v) == 0,
        vstd::math::abs(drag_axis_spec(v)) <= vstd::math::abs(v),
{
    if v == 0 {
        lemma_div_pos_is_pos(0, DRAG_DEN as int);
        lemma_remainder_upper(0, DRAG_DEN as int);
    } else if v > 0 {
        lemma_drag_positive(v);
    } else {
        lemma_drag_positive(-v);
        assert((-v) * DRAG_KEEP_NUM == -(v * DRAG_KEEP_NUM)) by (nonlinear_arith);
    }
}

/// The drag step applied `k` times to one axis velocity.
pub open spec fn drag_iter_spec(v: int, k: nat) -> int
    decreases k,
{
    if k == 0 {
        v
    } else {
        drag_iter_spec(drag_axis_spec(v), (k - 1) as nat)
    }
}

/// Repeated drag drives an axis velocity all the way to zero: within
/// `|v|` steps the velocity is exactly zero, and it stays there.
pub proof fn lemma_drag_reaches_zero(v: int, k: nat)
    requires
        vstd::math::abs(v) <= k,
    ensures
        drag_iter_spec(v, k) == 0,
    decreases k,
{
    if k > 0 {
        lemma_drag_monotone(v);
        lemma_drag_reaches_zero(drag_axis_spec(v), (k - 1) as nat);
    }
}

/// Drag on a positive axis velocity lands strictly below it and at or
/// above zero.
proof fn lemma_drag_positive(v: int)
    requires
        v > 0,
    ensures
        0 <= (v * DRAG_KEEP_NUM) / (DRAG_DEN as int) < v,
{
    let x = v * DRAG_KEEP_NUM;
    assert(0 <= v * DRAG_KEEP_NUM && v * DRAG_KEEP_NUM <= v * DRAG_DEN - v) by (nonlinear_arith)
        requires
            v > 0,
    ;
    lemma_div_pos_is_pos(x, DRAG_DEN as int);
    lemma_remainder_upper(x, DRAG_DEN as int);
    let q = x / (DRAG_DEN as int);
    assert(DRAG_DEN * q <= x);
    if q >= v {
        assert(DRAG_DEN * q >= DRAG_DEN * v) by (nonlinear_arith)
            requires
                q >= v,
        ;
        assert(v * DRAG_DEN == DRAG_DEN * v) by (nonlinear_arith);
    }
}

/// One axis of the fixed-step integration: the position advanced by
/// `velocity * dt`, saturated at the coordinate guard so that it stays
/// representable even when no bounds are available to wrap against.
pub open spec fn integrate_axis_spec(p: int, v: int, dt_ms: int) -> int {
    clamp_spec(
        p + div_toward_zero(v * dt_ms, 1000),
        -(POS_LIMIT_MU as int),
        POS_LIMIT_MU as int,
    )
}

pub fn integrate_axis(p: i64, v: i64, dt_ms: u64) -> (r: i64)
    requires
        -POS_LIMIT_MU <= p <= POS_LIMIT_MU,
        -BULLET_SPEED_MU <= v <= BULLET_SPEED_MU,
        dt_ms <= DT_LIMIT_MS,
    ensures
        r == integrate_axis_spec(p as int, v as int, dt_ms as int),
        -POS_LIMIT_MU <= r <= POS_LIMIT_MU,
{
    let dt = dt_ms as i64;
    proof {
        assert(-1_000_000_000_000_000 <= (v as int) * (dt as int) <= 1_000_000_000_000_000)
            by (nonlinear_arith)
            requires
                -1_000_000 <= v as int <= 1_000_000,
                0 <= dt as int <= 1_000_000_000,
        ;
        lemma_div_toward_zero_in_range((v as int) * (dt as int), 1000, 1_000_000_000_000);
        assert((-(v as int)) * (dt as int) == -((v as int) * (dt as int))) by (nonlinear_arith);
    }
    let delta: i64 = if v >= 0 {
        (v * dt) / 1000
    } else {
        -(((-v) * dt) / 1000)
    };
    clamp_i64(p + delta, -POS_LIMIT_MU, POS_LIMIT_MU)
}

/// The facing that aligns a sprite with a velocity: the velocity direction
/// turned a quarter turn clockwise, matching a sprite whose forward axis
/// points up when unrotated.
pub open spec fn facing_of_velocity_spec(v: Vec2) -> Vec2 {
    Vec2 { x: v.y, y: (-(v.x as int)) as i64 }
}

/// A facing turned a quarter turn counter-clockwise, as a spawned
/// projectile carries it.
pub open spec fn quarter_turn_ccw_spec(f: Vec2) -> Vec2 {
    Vec2 { x: (-(f.y as int)) as i64, y: f.x }
}

pub fn facing_of_velocity(v: Vec2) -> (f: Vec2)
    requires
        vec2_bounded(v, BULLET_SPEED_MU as int),
    ensures
        f == facing_of_velocity_spec(v),
        vec2_bounded(f, BULLET_SPEED_MU as int),
{
    Vec2 { x: v.y, y: -v.x }
}

pub fn quarter_turn_ccw(f: Vec2) -> (r: Vec2)
    requires
        vec2_bounded(f, BULLET_SPEED_MU as int),
    ensures
        r == quarter_turn_ccw_spec(f),
        vec2_bounded(r, BULLET_SPEED_MU as int),
{
    Vec2 { x: -f.y, y: f.x }
}

/// The edge-proximity ship scale: one plus half the ship's horizontal
/// distance from the play field's left edge, as a fraction of the field
/// width, in per-mille; guarded above by the scale cap.
pub open spec fn ship_scale_spec(x: int, b: Rect) -> int {
    let dx = vstd::math::abs(x - b.min.x);
    let width = b.max.x - b.min.x;
    vstd::math::min(
        SCALE_ONE_PM + (SCALE_GAIN_PM * dx) / width,
        SCALE_CAP_PM as int,
    )
}

pub fn ship_scale(x: i64, b: &Rect) -> (s: i64)
    requires
        rect_wf(*b),
        b.min.x < b.max.x,
        -POS_LIMIT_MU <= x <= POS_LIMIT_MU,
    ensures
        s == ship_scale_spec(x as int, *b),
        SCALE_ONE_PM <= s <= SCALE_CAP_PM,
{
    let dx: i64 = if x >= b.min.x {
        x - b.min.x
    } else {
        b.min.x - x
    };
    let width: i64 = b.max.x - b.min.x;
    proof {
        assert(0 <= SCALE_GAIN_PM * dx <= SCALE_GAIN_PM * (POS_LIMIT_MU + COORD_LIMIT_MU))
            by (nonlinear_arith)
            requires
                0 <= dx as int <= POS_LIMIT_MU + COORD_LIMIT_MU,
        ;
        lemma_div_pos_is_pos(SCALE_GAIN_PM * dx, width as int);
        lemma_div_nonincreasing(SCALE_GAIN_PM * dx, width as int);
    }
    let grown: i64 = SCALE_ONE_PM + (SCALE_GAIN_PM * dx) / width;
    if grown > SCALE_CAP_PM {
        SCALE_CAP_PM
    } else {
        grown
    }
}

/// One axis of the background fit: the viewport extent over the window
/// extent, grown by a tenth, in per-mille.
pub open spec fn background_scale_spec(cam: int, win: int) -> int {
    (BG_SCALE_NUM_PM * cam) / win
}

pub fn background_scale_axis(cam: i64, win: i64) -> (s: i64)
    requires
        0 <= cam <= 2 * COORD_LIMIT_MU,
        1 <= win,
    ensures
        s == background_scale_spec(cam as int, win as int),
        0 <= s,
{
    proof {
        assert(0 <= BG_SCALE_NUM_PM * cam <= BG_SCALE_NUM_PM * (2 * COORD_LIMIT_MU))
            by (nonlinear_arith)
            requires
                0 <= cam as int <= 2 * COORD_LIMIT_MU,
        ;
        lemma_div_pos_is_pos(BG_SCALE_NUM_PM * cam, win as int);
    }
    (BG_SCALE_NUM_PM * cam) / win
}

} // verus!
