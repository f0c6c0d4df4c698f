//! A single point mass: position, velocity, a force accumulator, a colour,
//! and a liveness flag that an expiry timer may clear exactly once.

use vstd::prelude::*;

use crate::geom::fits_i64;
use crate::geom::valid_color;
use crate::geom::Color;
use crate::geom::Geometry;
use crate::geom::Snapshot;
use crate::geom::Vec2;
use crate::geom::PARTICLE_RADIUS;
use crate::rng::random_color;

verus! {

/// A point mass shared, by id, between the frame loop and the expiry timer
/// that will eventually deactivate it.
#[derive(Clone, Copy, PartialEq, Eq, Structural, Debug)]
pub struct Particle {
    /// Stable handle under which an expiry event finds this particle.
    pub id: u64,
    pub point: Vec2,
    pub velocity: Vec2,
    pub acceleration: Vec2,
    pub radius: i64,
    /// Liveness: once false the particle is pruned and never drawn again.
    pub active: bool,
    pub color: Color,
}

impl Particle {
    /// The particle after a force was accumulated.
    pub open spec fn pushed(self, d: Vec2) -> Particle {
        Particle {
            acceleration: Vec2 {
                x: (self.acceleration.x + d.x) as i64,
                y: (self.acceleration.y + d.y) as i64,
            },
            ..self
        }
    }

    /// Whether accumulating `d` stays within machine range.
    pub open spec fn push_fits(self, d: Vec2) -> bool {
        &&& fits_i64(self.acceleration.x + d.x)
        &&& fits_i64(self.acceleration.y + d.y)
    }

    /// The particle after one semi-implicit Euler step: the accumulated
    /// force joins the velocity, the velocity joins the position, and the
    /// accumulator is emptied.
    pub open spec fn stepped(self) -> Particle {
        let vx = (self.velocity.x + self.acceleration.x) as i64;
        let vy = (self.velocity.y + self.acceleration.y) as i64;
        Particle {
            point: Vec2 { x: (self.point.x + vx) as i64, y: (self.point.y + vy) as i64 },
            velocity: Vec2 { x: vx, y: vy },
            acceleration: Vec2 { x: 0, y: 0 },
            ..self
        }
    }

    /// Whether one Euler step stays within machine range.
    pub open spec fn step_fits(self) -> bool {
        &&& fits_i64(self.velocity.x + self.acceleration.x)
        &&& fits_i64(self.velocity.y + self.acceleration.y)
        &&& fits_i64(self.point.x + (self.velocity.x + self.acceleration.x))
        &&& fits_i64(self.point.y + (self.velocity.y + self.acceleration.y))
    }

    /// The particle after its expiry fired.
    pub open spec fn deactivated(self) -> Particle {
        Particle { active: false, ..self }
    }

    /// The degenerate bounding box used both for drawing and for collision:
    /// the position and the position offset by the radius.
    pub open spec fn geometry_of(self) -> Geometry {
        Geometry {
            x0: self.point.x,
            y0: self.point.y,
            x1: (self.point.x + self.radius) as i64,
            y1: (self.point.y + self.radius) as i64,
        }
    }

    /// Whether the bounding box stays within machine range.
    pub open spec fn geometry_fits(self) -> bool {
        &&& fits_i64(self.point.x + self.radius)
        &&& fits_i64(self.point.y + self.radius)
    }

    /// The drawable this particle hands to the renderer.
    pub open spec fn snapshot_of(self) -> Snapshot {
        Snapshot { geometry: self.geometry_of(), color: self.color }
    }

    /// A fresh particle at `point` with the given colour: at rest, active,
    /// with an empty force accumulator and the default radius.
    pub fn new_with_color(point: Vec2, color: Color) -> (r: Particle)
        ensures
            r == (Particle {
                id: 0,
                point,
                velocity: Vec2 { x: 0, y: 0 },
                acceleration: Vec2 { x: 0, y: 0 },
                radius: PARTICLE_RADIUS,
                active: true,
                color,
            }),
    {
        Particle {
            id: 0,
            point: point,
            velocity: Vec2 { x: 0, y: 0 },
            acceleration: Vec2 { x: 0, y: 0 },
            radius: PARTICLE_RADIUS,
            active: true,
            color: color,
        }
    }

    /// A fresh particle at `point` with a randomly drawn colour.
    pub fn new(point: Vec2) -> (r: Particle)
        ensures
            r == (Particle {
                id: 0,
                point,
                velocity: Vec2 { x: 0, y: 0 },
                acceleration: Vec2 { x: 0, y: 0 },
                radius: PARTICLE_RADIUS,
                active: true,
                color: r.color,
            }),
            valid_color(r.color),
    {
        let color = random_color();
        Particle::new_with_color(point, color)
    }

    /// Builder: the same particle with the velocity overridden.
    pub fn with_velocity(self, velocity: Vec2) -> (r: Particle)
        ensures
            r == (Particle { velocity, ..self }),
    {
        Particle { velocity, ..self }
    }

    /// Accumulate a force; additive and commutative, consumed by the next
    /// integration step.
    pub fn push(&mut self, d: Vec2)
        requires
            old(self).push_fits(d),
        ensures
            *final(self) == old(self).pushed(d),
    {
        self.acceleration.x = self.acceleration.x + d.x;
        self.acceleration.y = self.acceleration.y + d.y;
    }

    /// One semi-implicit Euler integration step; empties the accumulator.
    pub fn run(&mut self)
        requires
            old(self).step_fits(),
        ensures
            *final(self) == old(self).stepped(),
    {
        self.velocity.x = self.velocity.x + self.acceleration.x;
        self.velocity.y = self.velocity.y + self.acceleration.y;
        self.point.x = self.point.x + self.velocity.x;
        self.point.y = self.point.y + self.velocity.y;
        self.acceleration.x = 0;
        self.acceleration.y = 0;
    }

    /// The expiry fired: clear the liveness flag, touching nothing else.
    pub fn deactivate(&mut self)
        ensures
            *final(self) == old(self).deactivated(),
    {
        self.active = false;
    }

    /// The bounding box used for drawing and collision queries.
    pub fn get_geometry(&self) -> (r: Geometry)
        requires
            self.geometry_fits(),
        ensures
            r == self.geometry_of(),
    {
        Geometry {
            x0: self.point.x,
            y0: self.point.y,
            x1: self.point.x + self.radius,
            y1: self.point.y + self.radius,
        }
    }

    /// Emit this particle's drawable to the renderer's sink; the particle
    /// itself is untouched.
    pub fn draw(&self, sink: &mut Vec<Snapshot>)
        requires
            self.geometry_fits(),
        ensures
            final(sink)@ == old(sink)@.push(self.snapshot_of()),
    {
        let snapshot = Snapshot { geometry: self.get_geometry(), color: self.color };
        sink.push(snapshot);
    }
}

/// The drawables of a sequence of particles, in order.
pub open spec fn snapshots_of(s: Seq<Particle>) -> Seq<Snapshot>
    decreases s.len(),
{
    if s.len() == 0 {
        Seq::empty()
    } else {
        snapshots_of(s.drop_last()).push(s.last().snapshot_of())
    }
}

/// A particle at rest that receives a single force moves by exactly that
/// force in one integration step, and ends with it as its velocity.
pub proof fn lemma_integration_from_rest(p: Particle, f: Vec2)
    requires
        p.velocity == (Vec2 { x: 0, y: 0 }),
        p.acceleration == (Vec2 { x: 0, y: 0 }),
        fits_i64(p.point.x + f.x),
        fits_i64(p.point.y + f.y),
    ensures
        p.pushed(f).stepped().velocity == f,
        p.pushed(f).stepped().point.x == p.point.x + f.x,
        p.pushed(f).stepped().point.y == p.point.y + f.y,
{
}

/// After one integration step the force accumulator is always empty, no
/// matter how many pushes preceded it.
pub proof fn lemma_force_reset(p: Particle)
    ensures
        p.stepped().acceleration == (Vec2 { x: 0, y: 0 }),
{
}

/// No particle transform reactivates a particle: pushing and stepping keep
/// the liveness flag, and deactivation only clears it.
pub proof fn lemma_active_monotone(p: Particle, d: Vec2)
    ensures
        p.pushed(d).active == p.active,
        p.stepped().active == p.active,
        !p.deactivated().active,
{
}

} // verus!
