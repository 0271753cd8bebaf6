use shipsim::fuse::Fuse;
use shipsim::geom::{Rect, Vec2};
use shipsim::math::isqrt_u64;
use shipsim::motion::{background_scale_axis, drag_axis, ship_scale, steer_axis};
use shipsim::params::{
    BULLET_SCALE_PM, FUSE_DURATION_MS, MAX_SPEED_MU, SCALE_ONE_PM,
};
use shipsim::world::{muzzle_velocity, InputSnapshot, Projectile, Ship, World};

fn idle_input() -> InputSnapshot {
    InputSnapshot { left: false, right: false, up: false, down: false, fire: false }
}

fn fire_input() -> InputSnapshot {
    InputSnapshot { left: false, right: false, up: false, down: false, fire: true }
}

fn ship_at(pos: Vec2, vel: Vec2) -> Ship {
    Ship { pos, vel, facing: Vec2 { x: SCALE_ONE_PM, y: 0 }, scale: Vec2 { x: 1000, y: 1000 } }
}

fn projectile_at(id: u64, pos: Vec2, elapsed_ms: u64) -> Projectile {
    Projectile {
        id,
        pos,
        vel: Vec2 { x: 0, y: 0 },
        facing: Vec2 { x: SCALE_ONE_PM, y: 0 },
        scale: Vec2 { x: BULLET_SCALE_PM, y: BULLET_SCALE_PM },
        fuse: Fuse { elapsed_ms, duration_ms: FUSE_DURATION_MS },
    }
}

#[test]
fn wrap_inside_is_noop() {
    let bounds = Some(Rect::new(-400_000, -300_000, 400_000, 300_000));
    let mut w = World { ship: Some(ship_at(Vec2 { x: 5, y: 7 }, Vec2 { x: 0, y: 0 })), projectiles: Vec::new(), next_id: 0 };
    w.fixed_tick(1000, &bounds);
    let s = w.ship.unwrap();
    assert_eq!(s.pos, Vec2 { x: 5, y: 7 });
}

#[test]
fn wrap_below_min_goes_to_max() {
    let bounds = Some(Rect::new(-400_000, -300_000, 400_000, 300_000));
    let mut w = World {
        ship: Some(ship_at(Vec2 { x: -400_000, y: 0 }, Vec2 { x: -1, y: 0 })),
        projectiles: Vec::new(),
        next_id: 0,
    };
    w.fixed_tick(1000, &bounds);
    assert_eq!(w.ship.unwrap().pos.x, 400_000);
}

#[test]
fn wrap_above_max_goes_to_min() {
    // Scenario: after integration the ship sits at bounds.max.x + 1 and is
    // wrapped to bounds.min.x on the same tick.
    let bounds = Some(Rect::new(-400_000, -300_000, 400_000, 300_000));
    let mut w = World {
        ship: Some(ship_at(Vec2 { x: 400_000, y: 0 }, Vec2 { x: 1, y: 0 })),
        projectiles: Vec::new(),
        next_id: 0,
    };
    w.fixed_tick(1000, &bounds);
    assert_eq!(w.ship.unwrap().pos.x, -400_000);
    assert_eq!(w.ship.unwrap().pos.y, 0);
}

#[test]
fn wrap_twice_equals_wrap_once() {
    let bounds = Some(Rect::new(-400_000, -300_000, 400_000, 300_000));
    let mut w = World {
        ship: Some(ship_at(Vec2 { x: 400_000, y: 0 }, Vec2 { x: 1, y: 0 })),
        projectiles: Vec::new(),
        next_id: 0,
    };
    w.fixed_tick(1000, &bounds);
    let once = w.ship.unwrap().pos;
    // A second tick at rest: the already-wrapped position stays put.
    w.ship = Some(ship_at(once, Vec2 { x: 0, y: 0 }));
    w.fixed_tick(1000, &bounds);
    assert_eq!(w.ship.unwrap().pos, once);
}

#[test]
fn missing_viewport_skips_wrap() {
    let mut w = World {
        ship: Some(ship_at(Vec2 { x: 400_000, y: 0 }, Vec2 { x: 1, y: 0 })),
        projectiles: Vec::new(),
        next_id: 0,
    };
    w.fixed_tick(1000, &None);
    assert_eq!(w.ship.unwrap().pos.x, 400_001);
}

#[test]
fn drag_shrinks_magnitude_and_keeps_sign() {
    assert_eq!(drag_axis(100_000), 99_500);
    assert_eq!(drag_axis(-100_000), -99_500);
    assert_eq!(drag_axis(0), 0);
    let mut v: i64 = 10;
    let mut steps = 0;
    while v != 0 {
        let next = drag_axis(v);
        assert!(next >= 0, "sign must never reverse");
        assert!(next < v, "magnitude must strictly decrease");
        v = next;
        steps += 1;
    }
    assert!(steps > 0);
}

#[test]
fn drag_negative_never_reverses_sign() {
    let mut v: i64 = -10;
    while v != 0 {
        let next = drag_axis(v);
        assert!(next <= 0);
        assert!(next > v);
        v = next;
    }
}

#[test]
fn steer_accelerates_each_direction() {
    assert_eq!(steer_axis(0, false, true), 10_000);
    assert_eq!(steer_axis(0, true, false), -10_000);
    assert_eq!(steer_axis(0, true, true), 0);
    assert_eq!(steer_axis(0, false, false), 0);
}

#[test]
fn steer_clamps_speed() {
    assert_eq!(steer_axis(495_000, false, true), MAX_SPEED_MU);
    assert_eq!(steer_axis(-495_000, true, false), -MAX_SPEED_MU);
    assert_eq!(steer_axis(MAX_SPEED_MU, false, true), MAX_SPEED_MU);
    assert!(steer_axis(MAX_SPEED_MU, false, true).abs() <= MAX_SPEED_MU);
}

#[test]
fn fuse_finishes_exactly_on_time() {
    let mut f = Fuse::new(FUSE_DURATION_MS);
    f.tick(1999);
    assert!(!f.finished());
    assert_eq!(f.elapsed_ms, 1999);
    f.tick(1);
    assert!(f.finished());
    assert_eq!(f.elapsed_ms, 2000);
    // The elapsed time caps at the duration and stays terminal.
    f.tick(500);
    assert!(f.finished());
    assert_eq!(f.elapsed_ms, 2000);
}

#[test]
fn spawn_scenario() {
    // Ship at (0,0) with velocity (100,0) units/s, fire edge true: exactly
    // one projectile at (0,0) with velocity (1000,0) units/s and a 2.0 s
    // fuse.
    let mut w = World {
        ship: Some(ship_at(Vec2 { x: 0, y: 0 }, Vec2 { x: 100_000, y: 0 })),
        projectiles: Vec::new(),
        next_id: 0,
    };
    let despawned = w.input_tick(fire_input(), 16, &None);
    assert!(despawned.is_empty());
    assert_eq!(w.projectiles.len(), 1);
    let p = &w.projectiles[0];
    assert_eq!(p.id, 0);
    assert_eq!(p.pos, Vec2 { x: 0, y: 0 });
    assert_eq!(p.vel, Vec2 { x: 1_000_000, y: 0 });
    assert_eq!(p.scale, Vec2 { x: 400, y: 400 });
    assert_eq!(p.fuse.duration_ms, 2000);
    assert_eq!(p.fuse.elapsed_ms, 0);
    assert_eq!(w.next_id, 1);
}

#[test]
fn fire_with_zero_velocity_is_suppressed() {
    let mut w = World {
        ship: Some(ship_at(Vec2 { x: 0, y: 0 }, Vec2 { x: 0, y: 0 })),
        projectiles: Vec::new(),
        next_id: 0,
    };
    let despawned = w.input_tick(fire_input(), 16, &None);
    assert!(despawned.is_empty());
    assert_eq!(w.projectiles.len(), 0);
    assert_eq!(w.next_id, 0);
}

#[test]
fn fire_without_edge_spawns_nothing() {
    let mut w = World {
        ship: Some(ship_at(Vec2 { x: 0, y: 0 }, Vec2 { x: 100_000, y: 0 })),
        projectiles: Vec::new(),
        next_id: 0,
    };
    w.input_tick(idle_input(), 16, &None);
    assert_eq!(w.projectiles.len(), 0);
}

#[test]
fn muzzle_speed_on_diagonal() {
    let v = muzzle_velocity(Vec2 { x: 300_000, y: 400_000 });
    assert_eq!(v, Vec2 { x: 600_000, y: 800_000 });
    let v = muzzle_velocity(Vec2 { x: -300_000, y: 400_000 });
    assert_eq!(v, Vec2 { x: -600_000, y: 800_000 });
}

#[test]
fn isqrt_exact_values() {
    assert_eq!(isqrt_u64(0), 0);
    assert_eq!(isqrt_u64(1), 1);
    assert_eq!(isqrt_u64(3), 1);
    assert_eq!(isqrt_u64(4), 2);
    assert_eq!(isqrt_u64(10_000_000_000), 100_000);
    assert_eq!(isqrt_u64(10_000_000_001), 100_000);
}

#[test]
fn expiry_scenario_no_ships_in_range() {
    // A projectile spawned at tick zero with no ship nearby is destroyed
    // on the tick where accumulated elapsed time first reaches 2.0 s, not
    // before, and at that tick's position.
    let mut w = World {
        ship: Some(ship_at(Vec2 { x: 2_000_000, y: 2_000_000 }, Vec2 { x: 100_000, y: 0 })),
        projectiles: Vec::new(),
        next_id: 7,
    };
    w.input_tick(fire_input(), 500, &None);
    assert_eq!(w.projectiles.len(), 1);
    // Move the ship well out of range so only the fuse can end the
    // projectile.
    w.ship = Some(ship_at(Vec2 { x: -3_000_000, y: -3_000_000 }, Vec2 { x: 0, y: 0 }));
    for _ in 0..3 {
        let gone = w.input_tick(idle_input(), 500, &None);
        assert!(gone.is_empty());
        assert_eq!(w.projectiles.len(), 1);
    }
    // Elapsed so far: 1500 ms. The next 500 ms tick reaches 2000 ms.
    let gone = w.input_tick(idle_input(), 500, &None);
    assert_eq!(gone, vec![7]);
    assert_eq!(w.projectiles.len(), 0);
    // The ship is never destroyed by the lifecycle.
    assert!(w.ship.is_some());
}

#[test]
fn collision_overlapping_destroys_projectile() {
    // Projectile box [0,0]-[99600,57600]; ship box [50000,30000]-[150000,130000]:
    // overlapping, so a projectile past its grace period is destroyed.
    let mut w = World {
        ship: Some(ship_at(Vec2 { x: 50_000, y: 30_000 }, Vec2 { x: 0, y: 0 })),
        projectiles: vec![projectile_at(3, Vec2 { x: 0, y: 0 }, 300)],
        next_id: 4,
    };
    let gone = w.input_tick(idle_input(), 0, &None);
    assert_eq!(gone, vec![3]);
    assert_eq!(w.projectiles.len(), 0);
    // The ship is never destroyed by a collision.
    assert!(w.ship.is_some());
}

#[test]
fn collision_disjoint_never_destroys() {
    // Ship box [200000,200000]-[300000,300000] is disjoint from the
    // projectile box, so the projectile survives past its grace period.
    let mut w = World {
        ship: Some(ship_at(Vec2 { x: 200_000, y: 200_000 }, Vec2 { x: 0, y: 0 })),
        projectiles: vec![projectile_at(3, Vec2 { x: 0, y: 0 }, 300)],
        next_id: 4,
    };
    let gone = w.input_tick(idle_input(), 0, &None);
    assert!(gone.is_empty());
    assert_eq!(w.projectiles.len(), 1);
}

#[test]
fn grace_period_suppresses_collision() {
    // Same overlapping boxes, but the projectile is younger than 0.2 s:
    // no destroy, regardless of overlap.
    let mut w = World {
        ship: Some(ship_at(Vec2 { x: 50_000, y: 30_000 }, Vec2 { x: 0, y: 0 })),
        projectiles: vec![projectile_at(3, Vec2 { x: 0, y: 0 }, 100)],
        next_id: 4,
    };
    let gone = w.input_tick(idle_input(), 0, &None);
    assert!(gone.is_empty());
    assert_eq!(w.projectiles.len(), 1);
    assert_eq!(w.projectiles[0].fuse.elapsed_ms, 100);
}

#[test]
fn despawn_order_expiry_then_collision() {
    let far = Vec2 { x: -3_000_000, y: -3_000_000 };
    let mut w = World {
        ship: Some(ship_at(Vec2 { x: 50_000, y: 30_000 }, Vec2 { x: 0, y: 0 })),
        projectiles: vec![
            projectile_at(11, far, 1900),
            projectile_at(12, Vec2 { x: 0, y: 0 }, 300),
        ],
        next_id: 13,
    };
    let gone = w.input_tick(idle_input(), 200, &None);
    assert_eq!(gone, vec![11, 12]);
    assert_eq!(w.projectiles.len(), 0);
}

#[test]
fn no_ship_world_never_fails() {
    let mut w = World { ship: None, projectiles: vec![projectile_at(1, Vec2 { x: 0, y: 0 }, 500)], next_id: 2 };
    let gone = w.input_tick(fire_input(), 16, &None);
    assert!(gone.is_empty());
    assert_eq!(w.projectiles.len(), 1);
    w.fixed_tick(16, &Some(Rect::new(-400_000, -300_000, 400_000, 300_000)));
    assert!(w.ship.is_none());
}

#[test]
fn orientation_follows_velocity() {
    let mut w = World {
        ship: Some(ship_at(Vec2 { x: 0, y: 0 }, Vec2 { x: 0, y: 0 })),
        projectiles: Vec::new(),
        next_id: 0,
    };
    let up = InputSnapshot { left: false, right: false, up: true, down: false, fire: false };
    w.input_tick(up, 16, &None);
    let s = w.ship.unwrap();
    // Acceleration up then drag: velocity (0, 9950); the facing is the
    // velocity turned a quarter turn clockwise, here the unrotated
    // direction.
    assert_eq!(s.vel, Vec2 { x: 0, y: 9_950 });
    assert_eq!(s.facing, Vec2 { x: 9_950, y: 0 });
}

#[test]
fn orientation_kept_at_zero_velocity() {
    let mut w = World {
        ship: Some(ship_at(Vec2 { x: 0, y: 0 }, Vec2 { x: 0, y: 0 })),
        projectiles: Vec::new(),
        next_id: 0,
    };
    w.input_tick(idle_input(), 16, &None);
    let s = w.ship.unwrap();
    assert_eq!(s.vel, Vec2 { x: 0, y: 0 });
    assert_eq!(s.facing, Vec2 { x: SCALE_ONE_PM, y: 0 });
}

#[test]
fn projectile_inherits_position_and_direction_not_offset() {
    let mut w = World {
        ship: Some(ship_at(Vec2 { x: 12_345, y: -6_789 }, Vec2 { x: 0, y: 200_000 })),
        projectiles: Vec::new(),
        next_id: 0,
    };
    w.input_tick(fire_input(), 16, &None);
    let p = &w.projectiles[0];
    assert_eq!(p.pos, Vec2 { x: 12_345, y: -6_789 });
    // Steered velocity (0, 199000) normalizes straight up at muzzle speed.
    assert_eq!(p.vel, Vec2 { x: 0, y: 1_000_000 });
}

#[test]
fn fixed_tick_moves_projectiles_too() {
    let bounds = Some(Rect::new(-4_000_000, -3_000_000, 4_000_000, 3_000_000));
    let mut pr = projectile_at(1, Vec2 { x: 0, y: 0 }, 0);
    pr.vel = Vec2 { x: 1_000_000, y: 0 };
    let mut w = World { ship: None, projectiles: vec![pr], next_id: 2 };
    w.fixed_tick(100, &bounds);
    assert_eq!(w.projectiles[0].pos, Vec2 { x: 100_000, y: 0 });
    assert_eq!(w.projectiles[0].fuse.elapsed_ms, 0);
}

#[test]
fn ship_scale_grows_toward_edges() {
    let b = Rect::new(-400_000, -300_000, 400_000, 300_000);
    assert_eq!(ship_scale(-400_000, &b), 1000);
    assert_eq!(ship_scale(0, &b), 1250);
    assert_eq!(ship_scale(400_000, &b), 1500);
}

#[test]
fn ship_scale_applied_by_input_tick() {
    let bounds = Some(Rect::new(-400_000, -300_000, 400_000, 300_000));
    let mut w = World {
        ship: Some(ship_at(Vec2 { x: 400_000, y: 0 }, Vec2 { x: 0, y: 0 })),
        projectiles: Vec::new(),
        next_id: 0,
    };
    w.input_tick(idle_input(), 16, &bounds);
    assert_eq!(w.ship.unwrap().scale, Vec2 { x: 1500, y: 1500 });
    // Without a viewport the scale is left as it was.
    let mut w2 = World {
        ship: Some(ship_at(Vec2 { x: 400_000, y: 0 }, Vec2 { x: 0, y: 0 })),
        projectiles: Vec::new(),
        next_id: 0,
    };
    w2.input_tick(idle_input(), 16, &None);
    assert_eq!(w2.ship.unwrap().scale, Vec2 { x: 1000, y: 1000 });
}

#[test]
fn background_scale_fits_viewport() {
    assert_eq!(background_scale_axis(800_000, 800_000), 1100);
    assert_eq!(background_scale_axis(800_000, 1_600_000), 550);
    assert_eq!(background_scale_axis(0, 1_000), 0);
}

#[test]
fn new_world_has_one_ship_at_rest() {
    let w = World::new();
    let s = w.ship.unwrap();
    assert_eq!(s.pos, Vec2 { x: 0, y: 0 });
    assert_eq!(s.vel, Vec2 { x: 0, y: 0 });
    assert_eq!(s.scale, Vec2 { x: 1000, y: 1000 });
    assert!(w.projectiles.is_empty());
    assert_eq!(w.next_id, 0);
}

#[test]
fn second_fire_uses_next_id() {
    let mut w = World {
        ship: Some(ship_at(Vec2 { x: 0, y: 0 }, Vec2 { x: 100_000, y: 0 })),
        projectiles: Vec::new(),
        next_id: 0,
    };
    w.input_tick(fire_input(), 16, &None);
    w.input_tick(fire_input(), 16, &None);
    assert_eq!(w.projectiles.len(), 2);
    assert_eq!(w.projectiles[0].id, 0);
    assert_eq!(w.projectiles[1].id, 1);
    assert_eq!(w.next_id, 2);
}
