//! The entity store and the per-tick simulation step: steering the ship,
//! spawning projectiles, ticking fuses, integrating motion with toroidal
//! wrap-around, and resolving projectile-versus-ship collisions.

use vstd::prelude::*;
use crate::fuse::{Fuse, fuse_after_spec, fuse_finished, fuse_wf};
use crate::geom::{
    Rect, Vec2, lemma_wrap_idempotent, rect_wf, rects_overlap, rects_overlap_spec, vec2_bounded,
    wrap_coord, wrap_spec,
};
use crate::math::{
    div_toward_zero, is_sqrt_floor, isqrt_u64, lemma_div_toward_zero_in_range,
    lemma_sqrt_floor_dominates, sqrt_floor,
};
use crate::motion::{
    drag_axis, drag_axis_spec, facing_of_velocity, facing_of_velocity_spec, integrate_axis,
    integrate_axis_spec, lemma_drag_monotone, quarter_turn_ccw, quarter_turn_ccw_spec, ship_scale,
    ship_scale_spec, steer_axis, steer_axis_spec,
};
use crate::params::{
    BULLET_SCALE_PM, BULLET_SIZE_H_MU, BULLET_SIZE_W_MU, BULLET_SPEED_MU, DT_LIMIT_MS,
    FACING_LIMIT_MU, FUSE_DURATION_MS, GRACE_PERIOD_MS, MAX_SPEED_MU, POS_LIMIT_MU, SCALE_CAP_PM,
    SCALE_ONE_PM, SHIP_SIZE_H_MU, SHIP_SIZE_W_MU,
};

verus! {

/// The player ship: a transform (position, facing, scale) and a velocity.
/// The facing is a non-zero direction vector; the renderer draws the sprite
/// rotated to that direction's angle.
#[derive(Clone, Copy, Debug, PartialEq, Eq, Structural)]
pub struct Ship {
    pub pos: Vec2,
    pub vel: Vec2,
    pub facing: Vec2,
    pub scale: Vec2,
}

/// A projectile: a transform, a fixed velocity set at spawn, and a fuse
/// that destroys it when it finishes.
#[derive(Clone, Copy, Debug, PartialEq, Eq, Structural)]
pub struct Projectile {
    pub id: u64,
    pub pos: Vec2,
    pub vel: Vec2,
    pub facing: Vec2,
    pub scale: Vec2,
    pub fuse: Fuse,
}

/// The input snapshot for one tick: the held directions and the
/// fire-trigger edge (true only on the tick the trigger was pressed).
#[derive(Clone, Copy, Debug, PartialEq, Eq, Structural)]
pub struct InputSnapshot {
    pub left: bool,
    pub right: bool,
    pub up: bool,
    pub down: bool,
    pub fire: bool,
}

/// Both scale components within the guard.
pub open spec fn scale_wf(s: Vec2) -> bool {
    &&& 0 <= s.x <= SCALE_CAP_PM
    &&& 0 <= s.y <= SCALE_CAP_PM
}

pub open spec fn ship_wf(s: Ship) -> bool {
    &&& vec2_bounded(s.pos, POS_LIMIT_MU as int)
    &&& vec2_bounded(s.vel, MAX_SPEED_MU as int)
    &&& vec2_bounded(s.facing, FACING_LIMIT_MU as int)
    &&& !(s.facing.x == 0 && s.facing.y == 0)
    &&& scale_wf(s.scale)
}

pub open spec fn projectile_wf(p: Projectile) -> bool {
    &&& vec2_bounded(p.pos, POS_LIMIT_MU as int)
    &&& vec2_bounded(p.vel, BULLET_SPEED_MU as int)
    &&& vec2_bounded(p.facing, FACING_LIMIT_MU as int)
    &&& !(p.facing.x == 0 && p.facing.y == 0)
    &&& scale_wf(p.scale)
    &&& fuse_wf(p.fuse)
}

/// The point lies inside the closed rectangle.
pub open spec fn in_rect_spec(p: Vec2, b: Rect) -> bool {
    &&& b.min.x <= p.x <= b.max.x
    &&& b.min.y <= p.y <= b.max.y
}

/// The bounding box of a sprite: its min corner is the position, its max
/// corner the position plus the nominal size scaled per axis.
pub open spec fn sprite_box_spec(pos: Vec2, w: int, h: int, scale: Vec2) -> Rect {
    Rect {
        min: pos,
        max: Vec2 {
            x: (pos.x + (w * scale.x) / 1000) as i64,
            y: (pos.y + (h * scale.y) / 1000) as i64,
        },
    }
}

pub fn sprite_box(pos: Vec2, w: i64, h: i64, scale: Vec2) -> (r: Rect)
    requires
        vec2_bounded(pos, POS_LIMIT_MU as int),
        0 <= w <= 1_000_000,
        0 <= h <= 1_000_000,
        scale_wf(scale),
    ensures
        r == sprite_box_spec(pos, w as int, h as int, scale),
{
    proof {
        assert(0 <= w * scale.x <= 1_000_000_000_000 && 0 <= h * scale.y <= 1_000_000_000_000)
            by (nonlinear_arith)
            requires
                0 <= w as int <= 1_000_000,
                0 <= h as int <= 1_000_000,
                0 <= scale.x as int <= 1_000_000,
                0 <= scale.y as int <= 1_000_000,
        ;
        lemma_div_toward_zero_in_range(w * scale.x, 1000, 1_000_000_000);
        lemma_div_toward_zero_in_range(h * scale.y, 1000, 1_000_000_000);
    }
    Rect {
        min: pos,
        max: Vec2 { x: pos.x + (w * scale.x) / 1000, y: pos.y + (h * scale.y) / 1000 },
    }
}

/// The box of a projectile's sprite at its current scale.
pub open spec fn bullet_box_spec(p: Projectile) -> Rect {
    sprite_box_spec(p.pos, BULLET_SIZE_W_MU as int, BULLET_SIZE_H_MU as int, p.scale)
}

/// The box of a ship's sprite at its current scale.
pub open spec fn ship_box_spec(s: Ship) -> Rect {
    sprite_box_spec(s.pos, SHIP_SIZE_W_MU as int, SHIP_SIZE_H_MU as int, s.scale)
}

/// The collision rule: a projectile past its grace period whose box
/// overlaps the ship's box is destroyed. A younger projectile never is.
pub open spec fn projectile_hits_ship_spec(p: Projectile, s: Ship) -> bool {
    &&& p.fuse.elapsed_ms >= GRACE_PERIOD_MS
    &&& rects_overlap_spec(bullet_box_spec(p), ship_box_spec(s))
}

/// The collision rule against an optional ship: no ship, no hit.
pub open spec fn hits_some_ship_spec(p: Projectile, ship: Option<Ship>) -> bool {
    match ship {
        Some(s) => projectile_hits_ship_spec(p, s),
        None => false,
    }
}

pub fn projectile_hits_ship(p: &Projectile, s: &Ship) -> (r: bool)
    requires
        projectile_wf(*p),
        ship_wf(*s),
    ensures
        r == projectile_hits_ship_spec(*p, *s),
{
    if p.fuse.elapsed_ms < GRACE_PERIOD_MS {
        return false;
    }
    let bb = sprite_box(p.pos, BULLET_SIZE_W_MU, BULLET_SIZE_H_MU, p.scale);
    let sb = sprite_box(s.pos, SHIP_SIZE_W_MU, SHIP_SIZE_H_MU, s.scale);
    rects_overlap(&bb, &sb)
}

/// A projectile younger than the grace period never triggers a collision
/// destroy, whatever the boxes are.
pub proof fn lemma_grace_period(p: Projectile, s: Ship)
    requires
        p.fuse.elapsed_ms < GRACE_PERIOD_MS,
    ensures
        !projectile_hits_ship_spec(p, s),
{
}

/// The muzzle velocity of a projectile fired by a ship with velocity `v`:
/// the direction of `v` scaled to the muzzle speed, in fixed point via the
/// floor square root of `|v|^2`. Meaningful only for non-zero `v`.
pub open spec fn muzzle_velocity_spec(v: Vec2) -> Vec2 {
    let speed = sqrt_floor(v.x * v.x + v.y * v.y);
    Vec2 {
        x: div_toward_zero(v.x * BULLET_SPEED_MU, speed) as i64,
        y: div_toward_zero(v.y * BULLET_SPEED_MU, speed) as i64,
    }
}

pub fn muzzle_velocity(v: Vec2) -> (r: Vec2)
    requires
        vec2_bounded(v, MAX_SPEED_MU as int),
        !(v.x == 0 && v.y == 0),
    ensures
        r == muzzle_velocity_spec(v),
        vec2_bounded(r, BULLET_SPEED_MU as int),
{
    proof {
        assert(v.x * v.x <= 250_000_000_000 && v.y * v.y <= 250_000_000_000 && 0 <= v.x * v.x
            && 0 <= v.y * v.y && 1 <= v.x * v.x + v.y * v.y) by (nonlinear_arith)
            requires
                -500_000 <= v.x as int <= 500_000,
                -500_000 <= v.y as int <= 500_000,
                !(v.x as int == 0 && v.y as int == 0),
        ;
    }
    let n: i64 = v.x * v.x + v.y * v.y;
    let speed_u: u64 = isqrt_u64(n as u64);
    proof {
        assert(is_sqrt_floor(n as int, speed_u as int));
        if speed_u as int > 1_000_000 {
            assert(1_000_001 * 1_000_001 <= (speed_u as int) * (speed_u as int))
                by (nonlinear_arith)
                requires
                    1_000_001 <= speed_u as int,
            ;
        }
        assert((-(v.x as int)) * (-(v.x as int)) == (v.x as int) * (v.x as int) && (-(v.y as int))
            * (-(v.y as int)) == (v.y as int) * (v.y as int)) by (nonlinear_arith);
        if v.x >= 0 {
            lemma_sqrt_floor_dominates(n as int, v.x as int);
        } else {
            lemma_sqrt_floor_dominates(n as int, -(v.x as int));
        }
        if v.y >= 0 {
            lemma_sqrt_floor_dominates(n as int, v.y as int);
        } else {
            lemma_sqrt_floor_dominates(n as int, -(v.y as int));
        }
        assert(-((speed_u as int) * (BULLET_SPEED_MU as int)) <= (v.x as int) * (
        BULLET_SPEED_MU as int) <= (speed_u as int) * (BULLET_SPEED_MU as int)
            && -((speed_u as int) * (BULLET_SPEED_MU as int)) <= (v.y as int) * (
        BULLET_SPEED_MU as int) <= (speed_u as int) * (BULLET_SPEED_MU as int))
            by (nonlinear_arith)
            requires
                -(speed_u as int) <= v.x as int <= speed_u as int,
                -(speed_u as int) <= v.y as int <= speed_u as int,
        ;
        assert((speed_u as int) * (BULLET_SPEED_MU as int) == (BULLET_SPEED_MU as int) * (
        speed_u as int)) by (nonlinear_arith);
        lemma_div_toward_zero_in_range(
            (v.x as int) * (BULLET_SPEED_MU as int),
            speed_u as int,
            BULLET_SPEED_MU as int,
        );
        lemma_div_toward_zero_in_range(
            (v.y as int) * (BULLET_SPEED_MU as int),
            speed_u as int,
            BULLET_SPEED_MU as int,
        );
    }
    let speed: i64 = speed_u as i64;
    let rx: i64 = if v.x >= 0 {
        (v.x * BULLET_SPEED_MU) / speed
    } else {
        -(((-v.x) * BULLET_SPEED_MU) / speed)
    };
    let ry: i64 = if v.y >= 0 {
        (v.y * BULLET_SPEED_MU) / speed
    } else {
        -(((-v.y) * BULLET_SPEED_MU) / speed)
    };
    proof {
        assert((-(v.x as int)) * (BULLET_SPEED_MU as int) == -((v.x as int) * (
        BULLET_SPEED_MU as int)) && (-(v.y as int)) * (BULLET_SPEED_MU as int) == -((v.y as int)
            * (BULLET_SPEED_MU as int))) by (nonlinear_arith);
    }
    Vec2 { x: rx, y: ry }
}

/// The projectile a ship spawns on a fire edge: the ship's position, the
/// ship's facing turned a quarter turn counter-clockwise, the fixed spawn
/// scale, the muzzle velocity, and a fresh fuse.
pub open spec fn spawned_projectile_spec(s: Ship, id: u64) -> Projectile {
    Projectile {
        id,
        pos: s.pos,
        vel: muzzle_velocity_spec(s.vel),
        facing: quarter_turn_ccw_spec(s.facing),
        scale: Vec2 { x: BULLET_SCALE_PM, y: BULLET_SCALE_PM },
        fuse: Fuse { elapsed_ms: 0u64, duration_ms: FUSE_DURATION_MS },
    }
}

/// A fire edge spawns only when a ship exists and its velocity is not
/// zero: a zero velocity has no direction to normalize, so firing is
/// suppressed rather than spawning an undefined direction.
pub open spec fn fire_allowed_spec(ship: Option<Ship>, inp: InputSnapshot) -> bool {
    &&& inp.fire
    &&& match ship {
        Some(s) => !(s.vel.x == 0 && s.vel.y == 0),
        None => false,
    }
}

/// The ship's velocity after the input-to-force translation and the drag
/// step on each axis.
pub open spec fn steered_velocity_spec(v: Vec2, inp: InputSnapshot) -> Vec2 {
    Vec2 {
        x: drag_axis_spec(steer_axis_spec(v.x as int, inp.left, inp.right)) as i64,
        y: drag_axis_spec(steer_axis_spec(v.y as int, inp.down, inp.up)) as i64,
    }
}

/// The ship after one variable-rate tick's steering: translated and
/// dragged velocity, facing aligned to the new velocity when it is
/// non-zero, and the edge-proximity scale when usable bounds are at hand.
pub open spec fn ship_after_input_spec(s: Ship, inp: InputSnapshot, vp: Option<Rect>) -> Ship {
    let v1 = steered_velocity_spec(s.vel, inp);
    let f1 = if v1.x == 0 && v1.y == 0 {
        s.facing
    } else {
        facing_of_velocity_spec(v1)
    };
    let sc = match vp {
        Some(b) => if b.min.x < b.max.x {
            Vec2 { x: ship_scale_spec(s.pos.x as int, b) as i64, y: ship_scale_spec(s.pos.x as int, b) as i64 }
        } else {
            s.scale
        },
        None => s.scale,
    };
    Ship { pos: s.pos, vel: v1, facing: f1, scale: sc }
}

pub open spec fn ship_after_input_opt_spec(
    ship: Option<Ship>,
    inp: InputSnapshot,
    vp: Option<Rect>,
) -> Option<Ship> {
    match ship {
        Some(s) => Some(ship_after_input_spec(s, inp, vp)),
        None => None,
    }
}

pub fn ship_after_input(s: &Ship, inp: InputSnapshot, vp: &Option<Rect>) -> (r: Ship)
    requires
        ship_wf(*s),
        match *vp {
            Some(b) => rect_wf(b),
            None => true,
        },
    ensures
        r == ship_after_input_spec(*s, inp, *vp),
        ship_wf(r),
{
    proof {
        lemma_drag_monotone(steer_axis_spec(s.vel.x as int, inp.left, inp.right));
        lemma_drag_monotone(steer_axis_spec(s.vel.y as int, inp.down, inp.up));
    }
    let vx = drag_axis(steer_axis(s.vel.x, inp.left, inp.right));
    let vy = drag_axis(steer_axis(s.vel.y, inp.down, inp.up));
    let v1 = Vec2 { x: vx, y: vy };
    let f1 = if vx == 0 && vy == 0 {
        s.facing
    } else {
        facing_of_velocity(v1)
    };
    let sc = match vp {
        Some(b) => if b.min.x < b.max.x {
            let k = ship_scale(s.pos.x, b);
            Vec2 { x: k, y: k }
        } else {
            s.scale
        },
        None => s.scale,
    };
    Ship { pos: s.pos, vel: v1, facing: f1, scale: sc }
}

/// A projectile with its fuse advanced by `dt`.
pub open spec fn ticked_projectile_spec(p: Projectile, dt: u64) -> Projectile {
    Projectile {
        id: p.id,
        pos: p.pos,
        vel: p.vel,
        facing: p.facing,
        scale: p.scale,
        fuse: fuse_after_spec(p.fuse, dt),
    }
}

/// The projectiles that survive the expiry step, fuses advanced: exactly
/// those whose fuse has not finished after this tick's `dt`.
pub open spec fn expire_kept_spec(s: Seq<Projectile>, dt: u64) -> Seq<Projectile>
    decreases s.len(),
{
    if s.len() == 0 {
        Seq::empty()
    } else {
        let rest = expire_kept_spec(s.drop_last(), dt);
        if fuse_finished(fuse_after_spec(s.last().fuse, dt)) {
            rest
        } else {
            rest.push(ticked_projectile_spec(s.last(), dt))
        }
    }
}

/// The ids the expiry step despawns: exactly the projectiles whose fuse
/// finishes on this tick (or had already finished), in store order.
pub open spec fn expire_removed_spec(s: Seq<Projectile>, dt: u64) -> Seq<u64>
    decreases s.len(),
{
    if s.len() == 0 {
        Seq::empty()
    } else {
        let rest = expire_removed_spec(s.drop_last(), dt);
        if fuse_finished(fuse_after_spec(s.last().fuse, dt)) {
            rest.push(s.last().id)
        } else {
            rest
        }
    }
}

/// The projectiles that survive the collision step: exactly those that do
/// not hit the ship.
pub open spec fn collide_kept_spec(s: Seq<Projectile>, ship: Option<Ship>) -> Seq<Projectile>
    decreases s.len(),
{
    if s.len() == 0 {
        Seq::empty()
    } else {
        let rest = collide_kept_spec(s.drop_last(), ship);
        if hits_some_ship_spec(s.last(), ship) {
            rest
        } else {
            rest.push(s.last())
        }
    }
}

/// The ids the collision step despawns, in store order.
pub open spec fn collide_removed_spec(s: Seq<Projectile>, ship: Option<Ship>) -> Seq<u64>
    decreases s.len(),
{
    if s.len() == 0 {
        Seq::empty()
    } else {
        let rest = collide_removed_spec(s.drop_last(), ship);
        if hits_some_ship_spec(s.last(), ship) {
            rest.push(s.last().id)
        } else {
            rest
        }
    }
}

/// Every projectile the expiry step keeps carries an unfinished fuse: a
/// projectile is destroyed on exactly the tick its accumulated elapsed
/// time reaches the fuse duration, never earlier.
pub proof fn lemma_expiry_keeps_unfinished(s: Seq<Projectile>, dt: u64)
    ensures
        forall|i: int|
            0 <= i < expire_kept_spec(s, dt).len() ==> !fuse_finished(
                #[trigger] expire_kept_spec(s, dt)[i].fuse,
            ),
    decreases s.len(),
{
    if s.len() > 0 {
        lemma_expiry_keeps_unfinished(s.drop_last(), dt);
        let rest = expire_kept_spec(s.drop_last(), dt);
        let kept = expire_kept_spec(s, dt);
        assert forall|i: int| 0 <= i < kept.len() implies !fuse_finished(kept[i].fuse) by {
            if i < rest.len() {
                assert(kept[i] == rest[i]);
                assert(!fuse_finished(rest[i].fuse));
            } else {
                assert(kept[i] == ticked_projectile_spec(s.last(), dt));
            }
        }
    }
}

/// Every projectile the collision step keeps misses the ship: a destroy
/// decision is taken exactly on overlap past the grace period.
pub proof fn lemma_collision_keeps_missers(s: Seq<Projectile>, ship: Option<Ship>)
    ensures
        forall|i: int|
            0 <= i < collide_kept_spec(s, ship).len() ==> !hits_some_ship_spec(
                #[trigger] collide_kept_spec(s, ship)[i],
                ship,
            ),
    decreases s.len(),
{
    if s.len() > 0 {
        lemma_collision_keeps_missers(s.drop_last(), ship);
        let rest = collide_kept_spec(s.drop_last(), ship);
        let kept = collide_kept_spec(s, ship);
        assert forall|i: int| 0 <= i < kept.len() implies !hits_some_ship_spec(kept[i], ship) by {
            if i < rest.len() {
                assert(kept[i] == rest[i]);
                assert(!hits_some_ship_spec(rest[i], ship));
            } else {
                assert(kept[i] == s.last());
            }
        }
    }
}

/// A position advanced by `velocity * dt` and then wrapped toroidally into
/// the bounds when bounds are at hand; without bounds the wrap is skipped.
pub open spec fn moved_pos_spec(p: Vec2, v: Vec2, dt_ms: u64, vp: Option<Rect>) -> Vec2 {
    let ix = integrate_axis_spec(p.x as int, v.x as int, dt_ms as int);
    let iy = integrate_axis_spec(p.y as int, v.y as int, dt_ms as int);
    match vp {
        Some(b) => Vec2 {
            x: wrap_spec(ix, b.min.x as int, b.max.x as int) as i64,
            y: wrap_spec(iy, b.min.y as int, b.max.y as int) as i64,
        },
        None => Vec2 { x: ix as i64, y: iy as i64 },
    }
}

pub fn moved_pos(p: Vec2, v: Vec2, dt_ms: u64, vp: &Option<Rect>) -> (r: Vec2)
    requires
        vec2_bounded(p, POS_LIMIT_MU as int),
        vec2_bounded(v, BULLET_SPEED_MU as int),
        dt_ms <= DT_LIMIT_MS,
        match *vp {
            Some(b) => rect_wf(b),
            None => true,
        },
    ensures
        r == moved_pos_spec(p, v, dt_ms, *vp),
        vec2_bounded(r, POS_LIMIT_MU as int),
        match *vp {
            Some(b) => in_rect_spec(r, b),
            None => true,
        },
{
    let ix = integrate_axis(p.x, v.x, dt_ms);
    let iy = integrate_axis(p.y, v.y, dt_ms);
    match vp {
        Some(b) => {
            proof {
                lemma_wrap_idempotent(ix as int, b.min.x as int, b.max.x as int);
                lemma_wrap_idempotent(iy as int, b.min.y as int, b.max.y as int);
            }
            Vec2 { x: wrap_coord(ix, b.min.x, b.max.x), y: wrap_coord(iy, b.min.y, b.max.y) }
        },
        None => Vec2 { x: ix, y: iy },
    }
}

/// A projectile after the fixed-step motion: position integrated and
/// wrapped, everything else unchanged.
pub open spec fn moved_projectile_spec(p: Projectile, dt_ms: u64, vp: Option<Rect>) -> Projectile {
    Projectile {
        id: p.id,
        pos: moved_pos_spec(p.pos, p.vel, dt_ms, vp),
        vel: p.vel,
        facing: p.facing,
        scale: p.scale,
        fuse: p.fuse,
    }
}

/// The ship after the fixed-step motion.
pub open spec fn moved_ship_spec(s: Ship, dt_ms: u64, vp: Option<Rect>) -> Ship {
    Ship {
        pos: moved_pos_spec(s.pos, s.vel, dt_ms, vp),
        vel: s.vel,
        facing: s.facing,
        scale: s.scale,
    }
}

/// The ship as the simulation starts: at the origin, at rest, facing the
/// unrotated direction, unscaled.
pub open spec fn initial_ship_spec() -> Ship {
    Ship {
        pos: Vec2 { x: 0, y: 0 },
        vel: Vec2 { x: 0, y: 0 },
        facing: Vec2 { x: SCALE_ONE_PM, y: 0 },
        scale: Vec2 { x: SCALE_ONE_PM, y: SCALE_ONE_PM },
    }
}

/// The whole simulation state: at most one ship, the live projectiles in
/// spawn order, and the id the next spawn takes.
#[derive(Clone, Debug)]
pub struct World {
    pub ship: Option<Ship>,
    pub projectiles: Vec<Projectile>,
    pub next_id: u64,
}

impl World {
    /// Every entity satisfies its bounds invariant.
    pub open spec fn wf(self) -> bool {
        &&& match self.ship {
            Some(s) => ship_wf(s),
            None => true,
        }
        &&& forall|i: int|
            0 <= i < self.projectiles@.len() ==> projectile_wf(#[trigger] self.projectiles@[i])
    }

    /// A fresh simulation: one ship at rest at the origin, no projectiles.
    pub fn new() -> (w: World)
        ensures
            w.wf(),
            w.ship == Some(initial_ship_spec()),
            w.projectiles@ == Seq::<Projectile>::empty(),
            w.next_id == 0,
    {
        World {
            ship: Some(
                Ship {
                    pos: Vec2 { x: 0, y: 0 },
                    vel: Vec2 { x: 0, y: 0 },
                    facing: Vec2 { x: SCALE_ONE_PM, y: 0 },
                    scale: Vec2 { x: SCALE_ONE_PM, y: SCALE_ONE_PM },
                },
            ),
            projectiles: Vec::new(),
            next_id: 0,
        }
    }
}

/// The expiry step: advance every fuse by `dt` and keep exactly the
/// projectiles whose fuse has not finished; the despawned ids come out in
/// store order.
fn expire_pass(list: &Vec<Projectile>, dt: u64) -> (r: (Vec<Projectile>, Vec<u64>))
    requires
        dt <= DT_LIMIT_MS,
        forall|i: int| 0 <= i < list@.len() ==> projectile_wf(#[trigger] list@[i]),
    ensures
        r.0@ == expire_kept_spec(list@, dt),
        r.1@ == expire_removed_spec(list@, dt),
        forall|i: int| 0 <= i < r.0@.len() ==> projectile_wf(#[trigger] r.0@[i]),
{
    let mut kept: Vec<Projectile> = Vec::new();
    let mut removed: Vec<u64> = Vec::new();
    let mut i: usize = 0;
    while i < list.len()
        invariant
            i <= list@.len(),
            dt <= DT_LIMIT_MS,
            forall|k: int| 0 <= k < list@.len() ==> projectile_wf(#[trigger] list@[k]),
            kept@ == expire_kept_spec(list@.take(i as int), dt),
            removed@ == expire_removed_spec(list@.take(i as int), dt),
            forall|k: int| 0 <= k < kept@.len() ==> projectile_wf(#[trigger] kept@[k]),
        decreases list@.len() - i,
    {
        let p = list[i];
        let mut f = p.fuse;
        f.tick(dt);
        proof {
            assert(list@.take(i as int + 1).drop_last() =~= list@.take(i as int));
            assert(list@.take(i as int + 1).last() == list@[i as int]);
        }
        if f.elapsed_ms >= f.duration_ms {
            removed.push(p.id);
        } else {
            kept.push(
                Projectile {
                    id: p.id,
                    pos: p.pos,
                    vel: p.vel,
                    facing: p.facing,
                    scale: p.scale,
                    fuse: f,
                },
            );
        }
        i = i + 1;
    }
    proof {
        assert(list@.take(list@.len() as int) =~= list@);
    }
    (kept, removed)
}

/// The collision step: keep exactly the projectiles that do not hit the
/// ship; the despawned ids come out in store order.
fn collide_pass(list: &Vec<Projectile>, ship: &Option<Ship>) -> (r: (Vec<Projectile>, Vec<u64>))
    requires
        forall|i: int| 0 <= i < list@.len() ==> projectile_wf(#[trigger] list@[i]),
        match *ship {
            Some(s) => ship_wf(s),
            None => true,
        },
    ensures
        r.0@ == collide_kept_spec(list@, *ship),
        r.1@ == collide_removed_spec(list@, *ship),
        forall|i: int| 0 <= i < r.0@.len() ==> projectile_wf(#[trigger] r.0@[i]),
{
    let mut kept: Vec<Projectile> = Vec::new();
    let mut removed: Vec<u64> = Vec::new();
    let mut i: usize = 0;
    while i < list.len()
        invariant
            i <= list@.len(),
            forall|k: int| 0 <= k < list@.len() ==> projectile_wf(#[trigger] list@[k]),
            match *ship {
                Some(s) => ship_wf(s),
                None => true,
            },
            kept@ == collide_kept_spec(list@.take(i as int), *ship),
            removed@ == collide_removed_spec(list@.take(i as int), *ship),
            forall|k: int| 0 <= k < kept@.len() ==> projectile_wf(#[trigger] kept@[k]),
        decreases list@.len() - i,
    {
        let p = list[i];
        let hit = match ship {
            Some(s) => projectile_hits_ship(&p, s),
            None => false,
        };
        proof {
            assert(list@.take(i as int + 1).drop_last() =~= list@.take(i as int));
            assert(list@.take(i as int + 1).last() == list@[i as int]);
        }
        if hit {
            removed.push(p.id);
        } else {
            kept.push(p);
        }
        i = i + 1;
    }
    proof {
        assert(list@.take(list@.len() as int) =~= list@);
    }
    (kept, removed)
}

impl World {
    /// One variable-rate tick: steer the ship (input translation, drag,
    /// facing, edge-proximity scale), advance and expire fuses, resolve
    /// collisions against the steered ship, then spawn on a fire edge.
    /// The returned ids are the despawned projectiles, expiry first, in
    /// store order. A spawned projectile joins at the end of the store
    /// and takes part in expiry and collision only from the next tick on.
    pub fn input_tick(&mut self, inp: InputSnapshot, dt_ms: u64, viewport: &Option<Rect>) -> (despawned: Vec<u64>)
        requires
            old(self).wf(),
            dt_ms <= DT_LIMIT_MS,
            match *viewport {
                Some(b) => rect_wf(b),
                None => true,
            },
        ensures
            final(self).wf(),
            final(self).ship == ship_after_input_opt_spec(old(self).ship, inp, *viewport),
            ({
                let ship1 = ship_after_input_opt_spec(old(self).ship, inp, *viewport);
                let kept = collide_kept_spec(
                    expire_kept_spec(old(self).projectiles@, dt_ms),
                    ship1,
                );
                &&& final(self).projectiles@ == if fire_allowed_spec(ship1, inp) {
                    kept.push(spawned_projectile_spec(ship1.unwrap(), old(self).next_id))
                } else {
                    kept
                }
                &&& despawned@ == expire_removed_spec(old(self).projectiles@, dt_ms)
                    + collide_removed_spec(expire_kept_spec(old(self).projectiles@, dt_ms), ship1)
                &&& final(self).next_id == if fire_allowed_spec(ship1, inp) {
                    if old(self).next_id < u64::MAX {
                        (old(self).next_id + 1) as u64
                    } else {
                        0u64
                    }
                } else {
                    old(self).next_id
                }
            }),
    {
        let ship1: Option<Ship> = match &self.ship {
            Some(s) => Some(ship_after_input(s, inp, viewport)),
            None => None,
        };
        self.ship = ship1;
        let (kept1, mut despawned) = expire_pass(&self.projectiles, dt_ms);
        let (kept2, mut removed2) = collide_pass(&kept1, &self.ship);
        self.projectiles = kept2;
        despawned.append(&mut removed2);
        let fire_ok = inp.fire && match &self.ship {
            Some(s) => s.vel.x != 0 || s.vel.y != 0,
            None => false,
        };
        if fire_ok {
            match &self.ship {
                Some(s) => {
                    let spawned = Projectile {
                        id: self.next_id,
                        pos: s.pos,
                        vel: muzzle_velocity(s.vel),
                        facing: quarter_turn_ccw(s.facing),
                        scale: Vec2 { x: BULLET_SCALE_PM, y: BULLET_SCALE_PM },
                        fuse: Fuse::new(FUSE_DURATION_MS),
                    };
                    self.projectiles.push(spawned);
                },
                None => {},
            }
            if self.next_id < u64::MAX {
                self.next_id = self.next_id + 1;
            } else {
                self.next_id = 0;
            }
        }
        despawned
    }

    /// One fixed-rate tick: advance every entity holding a transform and a
    /// velocity by `velocity * dt`, then wrap each position toroidally
    /// into the bounds. Without usable bounds the wrap is skipped and the
    /// tick still completes. With bounds, every position ends inside them.
    pub fn fixed_tick(&mut self, dt_ms: u64, viewport: &Option<Rect>)
        requires
            old(self).wf(),
            dt_ms <= DT_LIMIT_MS,
            match *viewport {
                Some(b) => rect_wf(b),
                None => true,
            },
        ensures
            final(self).wf(),
            final(self).next_id == old(self).next_id,
            final(self).ship == match old(self).ship {
                Some(s) => Some(moved_ship_spec(s, dt_ms, *viewport)),
                None => None::<Ship>,
            },
            final(self).projectiles@.len() == old(self).projectiles@.len(),
            forall|i: int|
                0 <= i < old(self).projectiles@.len() ==> final(self).projectiles@[i]
                    == moved_projectile_spec(old(self).projectiles@[i], dt_ms, *viewport),
            match *viewport {
                Some(b) => {
                    &&& match final(self).ship {
                        Some(s) => in_rect_spec(s.pos, b),
                        None => true,
                    }
                    &&& forall|i: int|
                        0 <= i < final(self).projectiles@.len() ==> in_rect_spec(
                            #[trigger] final(self).projectiles@[i].pos,
                            b,
                        )
                },
                None => true,
            },
    {
        let ship1: Option<Ship> = match &self.ship {
            Some(s) => Some(
                Ship {
                    pos: moved_pos(s.pos, s.vel, dt_ms, viewport),
                    vel: s.vel,
                    facing: s.facing,
                    scale: s.scale,
                },
            ),
            None => None,
        };
        self.ship = ship1;
        let ghost orig = self.projectiles@;
        let mut out: Vec<Projectile> = Vec::new();
        let mut i: usize = 0;
        while i < self.projectiles.len()
            invariant
                i <= orig.len(),
                self.projectiles@ == orig,
                dt_ms <= DT_LIMIT_MS,
                match *viewport {
                    Some(b) => rect_wf(b),
                    None => true,
                },
                forall|k: int| 0 <= k < orig.len() ==> projectile_wf(#[trigger] orig[k]),
                out@.len() == i,
                forall|k: int|
                    0 <= k < i ==> out@[k] == moved_projectile_spec(orig[k], dt_ms, *viewport),
                forall|k: int| 0 <= k < i ==> projectile_wf(#[trigger] out@[k]),
                forall|k: int|
                    0 <= k < i ==> match *viewport {
                        Some(b) => in_rect_spec(#[trigger] out@[k].pos, b),
                        None => true,
                    },
            decreases orig.len() - i,
        {
            let p = self.projectiles[i];
            let moved = Projectile {
                id: p.id,
                pos: moved_pos(p.pos, p.vel, dt_ms, viewport),
                vel: p.vel,
                facing: p.facing,
                scale: p.scale,
                fuse: p.fuse,
            };
            out.push(moved);
            i = i + 1;
        }
        self.projectiles = out;
    }
}

} // verus!

