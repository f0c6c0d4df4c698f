//! Fixed-point plane geometry and colours for the particle engine.
//!
//! Every coordinate, velocity, force and colour channel is an integer in
//! thousandths of a unit: `SCALE` is one unit, so the downward gravity of
//! 0.098 units per frame is `GRAVITY_Y == 98`.

use vstd::prelude::*;

verus! {

/// One spatial or colour unit, in fixed-point thousandths.
pub const SCALE: i64 = 1000;

/// Downward force applied to every swarm particle each frame.
pub const GRAVITY_Y: i64 = 98;

/// Visual and collision radius of every particle (one unit).
pub const PARTICLE_RADIUS: i64 = 1000;

/// Vertical slack granted below a solid's lower bound in its collision band
/// (two units).
pub const SOLID_THRESHOLD: i64 = 2000;

/// Half-width of the random velocity range of a swarm spawn (one unit).
pub const SPAWN_SPEED: i64 = 1000;

/// Upper bound (exclusive) on the random expiry delay of a swarm spawn,
/// in milliseconds.
pub const MAX_SPAWN_DELAY_MS: u64 = 5000;

/// Fixed expiry delay of a burst particle, in milliseconds.
pub const BURST_FADE_MS: u64 = 500;

/// Number of particles created by one explosion trigger.
pub const BURST_COUNT: usize = 50;

/// Whether a mathematical integer fits into an `i64`.
pub open spec fn fits_i64(v: int) -> bool {
    i64::MIN <= v <= i64::MAX
}

/// A point or vector in the plane, in fixed-point thousandths of a unit.
#[derive(Clone, Copy, PartialEq, Eq, Structural, Debug)]
pub struct Vec2 {
    pub x: i64,
    pub y: i64,
}

impl Vec2 {
    pub fn new(x: i64, y: i64) -> (r: Vec2)
        ensures
            r.x == x,
            r.y == y,
    {
        Vec2 { x, y }
    }
}

/// An RGBA colour; channels are thousandths, so `SCALE` is full intensity.
#[derive(Clone, Copy, PartialEq, Eq, Structural, Debug)]
pub struct Color {
    pub red: i64,
    pub green: i64,
    pub blue: i64,
    pub alpha: i64,
}

/// A particle colour as creation assigns it: each channel below full
/// intensity, fully opaque.
pub open spec fn valid_color(c: Color) -> bool {
    &&& 0 <= c.red < SCALE
    &&& 0 <= c.green < SCALE
    &&& 0 <= c.blue < SCALE
    &&& c.alpha == SCALE
}

/// An axis-aligned box given by two opposite corners.
#[derive(Clone, Copy, PartialEq, Eq, Structural, Debug)]
pub struct Geometry {
    pub x0: i64,
    pub y0: i64,
    pub x1: i64,
    pub y1: i64,
}

impl Geometry {
    pub fn new(x0: i64, y0: i64, x1: i64, y1: i64) -> (r: Geometry)
        ensures
            r.x0 == x0,
            r.y0 == y0,
            r.x1 == x1,
            r.y1 == y1,
    {
        Geometry { x0, y0, x1, y1 }
    }
}

/// An immutable drawable handed to the external renderer: a geometry and the
/// colour to draw it with.
#[derive(Clone, Copy, PartialEq, Eq, Structural, Debug)]
pub struct Snapshot {
    pub geometry: Geometry,
    pub color: Color,
}

} // verus!
