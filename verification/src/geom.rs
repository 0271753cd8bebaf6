//! Plane geometry: fixed-point vectors, axis-aligned rectangles, the
//! toroidal wrap rule, and rectangle overlap.

use vstd::prelude::*;
use crate::params::COORD_LIMIT_MU;

verus! {

/// A point, velocity, scale pair or size in the plane, in fixed point.
#[derive(Clone, Copy, Debug, PartialEq, Eq, Structural)]
pub struct Vec2 {
    pub x: i64,
    pub y: i64,
}

/// An axis-aligned rectangle given by its min and max corners.
#[derive(Clone, Copy, Debug, PartialEq, Eq, Structural)]
pub struct Rect {
    pub min: Vec2,
    pub max: Vec2,
}

impl Vec2 {
    pub fn new(x: i64, y: i64) -> (v: Vec2)
        ensures
            v == (Vec2 { x, y }),
    {
        Vec2 { x, y }
    }
}

impl Rect {
    pub fn new(min_x: i64, min_y: i64, max_x: i64, max_y: i64) -> (r: Rect)
        ensures
            r == (Rect {
                min: Vec2 { x: min_x, y: min_y },
                max: Vec2 { x: max_x, y: max_y },
            }),
    {
        Rect { min: Vec2 { x: min_x, y: min_y }, max: Vec2 { x: max_x, y: max_y } }
    }
}

/// Both components within `[-lim, lim]`.
pub open spec fn vec2_bounded(v: Vec2, lim: int) -> bool {
    &&& -lim <= v.x <= lim
    &&& -lim <= v.y <= lim
}

/// A usable play-field bound: non-empty on both axes and within the
/// coordinate guard.
pub open spec fn rect_wf(r: Rect) -> bool {
    &&& r.min.x <= r.max.x
    &&& r.min.y <= r.max.y
    &&& vec2_bounded(r.min, COORD_LIMIT_MU as int)
    &&& vec2_bounded(r.max, COORD_LIMIT_MU as int)
}

/// The toroidal wrap of one coordinate against the closed bound `[lo, hi]`:
/// a single comparison per side, exactly as the integrator applies it.
pub open spec fn wrap_spec(p: int, lo: int, hi: int) -> int {
    if p < lo {
        hi
    } else if p > hi {
        lo
    } else {
        p
    }
}

pub fn wrap_coord(p: i64, lo: i64, hi: i64) -> (r: i64)
    ensures
        r == wrap_spec(p as int, lo as int, hi as int),
{
    if p < lo {
        hi
    } else if p > hi {
        lo
    } else {
        p
    }
}

/// Wrapping a coordinate already inside the bound is a no-op, the result
/// always lies inside the bound, and wrapping twice equals wrapping once.
pub proof fn lemma_wrap_idempotent(p: int, lo: int, hi: int)
    requires
        lo <= hi,
    ensures
        lo <= p <= hi ==> wrap_spec(p, lo, hi) == p,
        lo <= wrap_spec(p, lo, hi) <= hi,
        wrap_spec(wrap_spec(p, lo, hi), lo, hi) == wrap_spec(p, lo, hi),
{
}

/// The two rectangles share an interior point: their intersection, taken as
/// `[max of mins, min of maxes]`, is a non-empty rectangle.
pub open spec fn rects_overlap_spec(a: Rect, b: Rect) -> bool {
    &&& a.min.x < b.max.x
    &&& b.min.x < a.max.x
    &&& a.min.y < b.max.y
    &&& b.min.y < a.max.y
}

pub fn rects_overlap(a: &Rect, b: &Rect) -> (r: bool)
    ensures
        r == rects_overlap_spec(*a, *b),
{
    a.min.x < b.max.x && b.min.x < a.max.x && a.min.y < b.max.y && b.min.y < a.max.y
}

/// Overlap does not depend on the order of the two rectangles.
pub proof fn lemma_overlap_symmetric(a: Rect, b: Rect)
    ensures
        rects_overlap_spec(a, b) == rects_overlap_spec(b, a),
{
}

} // verus!
