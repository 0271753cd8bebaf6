//! Fixed parameters of the simulation, in milli-unit / per-mille / millisecond
//! fixed point.

use vstd::prelude::*;

verus! {

/// Acceleration added to one velocity axis while a direction is held,
/// in milli-units per second (10.0 units/s).
pub const ACCEL_MU: i64 = 10_000;

/// Speed clamp applied independently to each velocity axis of the ship,
/// in milli-units per second (500.0 units/s).
pub const MAX_SPEED_MU: i64 = 500_000;

/// Numerator of the per-tick drag factor: velocity keeps 995/1000 of its
/// value each drag step (a damping of 0.005).
pub const DRAG_KEEP_NUM: i64 = 995;

/// Denominator of the per-tick drag factor.
pub const DRAG_DEN: i64 = 1000;

/// Muzzle speed of a projectile, in milli-units per second (1000.0 units/s).
pub const BULLET_SPEED_MU: i64 = 1_000_000;

/// Fuse duration of a projectile, in milliseconds (2.0 s).
pub const FUSE_DURATION_MS: u64 = 2_000;

/// Minimum projectile age before it may collide, in milliseconds (0.2 s).
pub const GRACE_PERIOD_MS: u64 = 200;

/// Nominal unscaled ship sprite width and height, in milli-units (100 units).
pub const SHIP_SIZE_W_MU: i64 = 100_000;

/// Nominal unscaled ship sprite height, in milli-units (100 units).
pub const SHIP_SIZE_H_MU: i64 = 100_000;

/// Nominal unscaled projectile sprite width, in milli-units (249 units).
pub const BULLET_SIZE_W_MU: i64 = 249_000;

/// Nominal unscaled projectile sprite height, in milli-units (144 units).
pub const BULLET_SIZE_H_MU: i64 = 144_000;

/// Scale of a freshly spawned projectile on both axes, per-mille (0.4).
pub const BULLET_SCALE_PM: i64 = 400;

/// The identity scale, per-mille (1.0).
pub const SCALE_ONE_PM: i64 = 1_000;

/// Gain of the edge-proximity ship scaling, per-mille (0.5).
pub const SCALE_GAIN_PM: i64 = 500;

/// Upper guard on any stored scale, per-mille (1000.0). Realistic scales
/// stay far below it; it only bounds the bounding-box arithmetic.
pub const SCALE_CAP_PM: i64 = 1_000_000;

/// Numerator of the background fit factor, per-mille (1.1).
pub const BG_SCALE_NUM_PM: i64 = 1_100;

/// Guard on the magnitude of any stored coordinate, in milli-units.
/// Integration saturates here so that positions stay representable even
/// when no play-field bounds are available to wrap against.
pub const POS_LIMIT_MU: i64 = 4_000_000_000_000;

/// Guard on the magnitude of any play-field bound coordinate, in
/// milli-units (one billion units).
pub const COORD_LIMIT_MU: i64 = 1_000_000_000_000;

/// Guard on a single tick's elapsed time, in milliseconds (about 11 days).
pub const DT_LIMIT_MS: u64 = 1_000_000_000;

/// Guard on the magnitude of a facing vector component, in milli-units.
pub const FACING_LIMIT_MU: i64 = 1_000_000;

} // verus!
