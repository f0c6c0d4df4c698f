//! The steady swarm registry: owns the particles the frame loop drives,
//! applies gravity and one Euler step per frame, prunes expired members,
//! and spawns new particles whose expiry the caller arms on a timer.

use vstd::prelude::*;

use crate::geom::valid_color;
use crate::geom::Color;
use crate::geom::Snapshot;
use crate::geom::Vec2;
use crate::geom::GRAVITY_Y;
use crate::geom::MAX_SPAWN_DELAY_MS;
use crate::geom::PARTICLE_RADIUS;
use crate::geom::SPAWN_SPEED;
use crate::geom::fits_i64;
use crate::particle::snapshots_of;
use crate::particle::Particle;
use crate::rng::random_below;
use crate::rng::random_color;
use crate::rng::random_symmetric;
use crate::solid::Solid;

verus! {

/// The impulse the orchestrator applies on a positive collision test: an
/// opposing force that cancels the particle's vertical velocity.
pub open spec fn cancel_impulse(p: Particle) -> Vec2 {
    Vec2 { x: 0, y: (0 - p.velocity.y) as i64 }
}

/// The particle after one collision pass over `solids`, in order: for each
/// solid whose band contains the particle's geometry, the vertical cancel
/// impulse is accumulated once. The velocity the impulse opposes is the one
/// read before the pass, as the pass itself only touches the accumulator.
pub open spec fn collision_resolved(p: Particle, solids: Seq<Solid>) -> Particle
    decreases solids.len(),
{
    if solids.len() == 0 {
        p
    } else {
        let q = collision_resolved(p, solids.drop_last());
        if solids.last().collides(p.geometry_of()) {
            q.pushed(cancel_impulse(p))
        } else {
            q
        }
    }
}

/// Whether every accumulation of the collision pass stays within machine
/// range.
pub open spec fn collision_resolve_fits(p: Particle, solids: Seq<Solid>) -> bool
    decreases solids.len(),
{
    if solids.len() == 0 {
        fits_i64(0 - p.velocity.y)
    } else {
        collision_resolve_fits(p, solids.drop_last()) && (solids.last().collides(p.geometry_of())
            ==> collision_resolved(p, solids.drop_last()).push_fits(cancel_impulse(p)))
    }
}

/// The collision pass only accumulates force: position, velocity, liveness,
/// id, radius and colour come through unchanged, so it can never reactivate
/// a particle nor move one.
pub proof fn lemma_collision_resolved_preserves(p: Particle, solids: Seq<Solid>)
    ensures
        collision_resolved(p, solids).point == p.point,
        collision_resolved(p, solids).velocity == p.velocity,
        collision_resolved(p, solids).active == p.active,
        collision_resolved(p, solids).id == p.id,
        collision_resolved(p, solids).radius == p.radius,
        collision_resolved(p, solids).color == p.color,
    decreases solids.len(),
{
    if solids.len() > 0 {
        lemma_collision_resolved_preserves(p, solids.drop_last());
    }
}

/// Range-safety of a collision pass carries down to every prefix of the
/// solids.
proof fn lemma_resolve_fits_prefix(p: Particle, solids: Seq<Solid>, k: int)
    requires
        collision_resolve_fits(p, solids),
        0 <= k <= solids.len(),
    ensures
        collision_resolve_fits(p, solids.take(k)),
    decreases solids.len() - k,
{
    if k == solids.len() {
        assert(solids.take(k) =~= solids);
    } else {
        lemma_resolve_fits_prefix(p, solids, k + 1);
        assert(solids.take(k + 1).drop_last() =~= solids.take(k));
        assert(collision_resolve_fits(p, solids.take(k)));
    }
}

/// The swarm: an ordered collection of particles and the counter that hands
/// out their ids.
pub struct GravityHandler {
    pub entities: Vec<Particle>,
    /// The id the next spawned particle will carry.
    pub next_id: u64,
}

impl GravityHandler {
    /// One frame of gravity for a single particle: the constant downward
    /// force is accumulated, then the particle integrated.
    pub open spec fn gravity_stepped(p: Particle) -> Particle {
        p.pushed(Vec2 { x: 0, y: GRAVITY_Y }).stepped()
    }

    /// Whether one frame of gravity stays within machine range.
    pub open spec fn gravity_step_fits(p: Particle) -> bool {
        &&& p.push_fits(Vec2 { x: 0, y: GRAVITY_Y })
        &&& p.pushed(Vec2 { x: 0, y: GRAVITY_Y }).step_fits()
    }

    /// The swarm's membership and state after one frame: inactive particles
    /// are pruned, and every survivor gets gravity and one Euler step.
    pub open spec fn run_model(s: Seq<Particle>) -> Seq<Particle>
        decreases s.len(),
    {
        if s.len() == 0 {
            Seq::empty()
        } else {
            let rest = Self::run_model(s.drop_last());
            if s.last().active {
                rest.push(Self::gravity_stepped(s.last()))
            } else {
                rest
            }
        }
    }

    /// After a frame every member of the swarm is active: pruning removes
    /// the inactive and the gravity step keeps liveness.
    pub proof fn lemma_run_model_active(s: Seq<Particle>)
        ensures
            forall|i: int|
                0 <= i < Self::run_model(s).len() ==> #[trigger] Self::run_model(s)[i].active,
        decreases s.len(),
    {
        if s.len() > 0 {
            Self::lemma_run_model_active(s.drop_last());
            let rest = Self::run_model(s.drop_last());
            if s.last().active {
                assert(Self::run_model(s) == rest.push(Self::gravity_stepped(s.last())));
                assert forall|i: int| 0 <= i < Self::run_model(s).len()
                    implies #[trigger] Self::run_model(s)[i].active by {
                    if i < rest.len() {
                        assert(Self::run_model(s)[i] == rest[i]);
                    } else {
                        assert(Self::run_model(s)[i] == Self::gravity_stepped(s.last()));
                    }
                }
            } else {
                assert(Self::run_model(s) == rest);
            }
        }
    }

    /// An empty swarm with ids starting at zero.
    pub fn new() -> (r: GravityHandler)
        ensures
            r.entities@ == Seq::<Particle>::empty(),
            r.next_id == 0,
    {
        let r = GravityHandler { entities: Vec::new(), next_id: 0 };
        proof {
            assert(r.entities@ =~= Seq::<Particle>::empty());
        }
        r
    }

    /// One frame: prune every inactive particle, then apply gravity and
    /// integrate every survivor. Afterwards no inactive member remains.
    pub fn run(&mut self)
        requires
            forall|i: int|
                0 <= i < old(self).entities@.len() && old(self).entities@[i].active
                    ==> Self::gravity_step_fits(#[trigger] old(self).entities@[i]),
        ensures
            final(self).entities@ == Self::run_model(old(self).entities@),
            final(self).next_id == old(self).next_id,
            forall|i: int|
                0 <= i < final(self).entities@.len() ==> #[trigger] final(self).entities@[i].active,
    {
        let n = self.entities.len();
        let mut survivors: Vec<Particle> = Vec::new();
        let mut i: usize = 0;
        while i < n
            invariant
                i <= n,
                n == self.entities@.len(),
                *self == *old(self),
                survivors@ == Self::run_model(self.entities@.take(i as int)),
                forall|j: int|
                    0 <= j < self.entities@.len() && self.entities@[j].active
                        ==> Self::gravity_step_fits(#[trigger] self.entities@[j]),
            decreases n - i,
        {
            let p = self.entities[i];
            proof {
                assert(self.entities@.take(i + 1).drop_last() =~= self.entities@.take(i as int));
                assert(self.entities@.take(i + 1).last() == self.entities@[i as int]);
            }
            if p.active {
                let mut q = p;
                q.push(Vec2 { x: 0, y: GRAVITY_Y });
                q.run();
                survivors.push(q);
            }
            i = i + 1;
        }
        proof {
            assert(self.entities@.take(n as int) =~= self.entities@);
            Self::lemma_run_model_active(self.entities@);
        }
        self.entities = survivors;
    }

    /// Emit every member's drawable, in order, to the renderer's sink; the
    /// particles themselves are untouched.
    pub fn draw(&self, sink: &mut Vec<Snapshot>)
        requires
            forall|i: int|
                0 <= i < self.entities@.len() ==> (#[trigger] self.entities@[i]).geometry_fits(),
        ensures
            final(sink)@ == old(sink)@ + snapshots_of(self.entities@),
    {
        let n = self.entities.len();
        let mut i: usize = 0;
        while i < n
            invariant
                i <= n,
                n == self.entities@.len(),
                sink@ == old(sink)@ + snapshots_of(self.entities@.take(i as int)),
                forall|j: int|
                    0 <= j < self.entities@.len() ==> (#[trigger] self.entities@[j]).geometry_fits(),
            decreases n - i,
        {
            proof {
                assert(self.entities@.take(i + 1).drop_last() =~= self.entities@.take(i as int));
                assert(self.entities@.take(i + 1).last() == self.entities@[i as int]);
            }
            self.entities[i].draw(sink);
            i = i + 1;
        }
        proof {
            assert(self.entities@.take(n as int) =~= self.entities@);
        }
    }

    /// Deterministic core of a spawn: append one fresh particle at `point`
    /// with the given velocity and colour, under the next id.
    pub fn spawn_one_with(&mut self, point: Vec2, velocity: Vec2, color: Color) -> (id: u64)
        requires
            old(self).next_id < u64::MAX,
        ensures
            id == old(self).next_id,
            final(self).next_id == old(self).next_id + 1,
            final(self).entities@ == old(self).entities@.push(
                Particle {
                    id: old(self).next_id,
                    point,
                    velocity,
                    acceleration: Vec2 { x: 0, y: 0 },
                    radius: PARTICLE_RADIUS,
                    active: true,
                    color,
                },
            ),
    {
        let mut p = Particle::new_with_color(point, color).with_velocity(velocity);
        p.id = self.next_id;
        self.entities.push(p);
        let id = self.next_id;
        self.next_id = self.next_id + 1;
        id
    }

    /// Spawn one particle at `point` with a random velocity in
    /// `[-SPAWN_SPEED, SPAWN_SPEED)` per axis and a random colour, and
    /// return its id together with the expiry delay, below
    /// `MAX_SPAWN_DELAY_MS` milliseconds, that the caller must arm for it.
    pub fn spawn_one(&mut self, point: Vec2) -> (r: (u64, u64))
        requires
            old(self).next_id < u64::MAX,
        ensures
            r.0 == old(self).next_id,
            r.1 < MAX_SPAWN_DELAY_MS,
            final(self).next_id == old(self).next_id + 1,
            final(self).entities@.len() == old(self).entities@.len() + 1,
            final(self).entities@.subrange(0, old(self).entities@.len() as int)
                == old(self).entities@,
            ({
                let p = final(self).entities@.last();
                &&& p.id == old(self).next_id
                &&& p.point == point
                &&& p.active
                &&& -SPAWN_SPEED <= p.velocity.x < SPAWN_SPEED
                &&& -SPAWN_SPEED <= p.velocity.y < SPAWN_SPEED
                &&& p.acceleration == (Vec2 { x: 0, y: 0 })
                &&& p.radius == PARTICLE_RADIUS
                &&& valid_color(p.color)
            }),
    {
        let vx = random_symmetric(SPAWN_SPEED);
        let vy = random_symmetric(SPAWN_SPEED);
        let color = random_color();
        let id = self.spawn_one_with(point, Vec2 { x: vx, y: vy }, color);
        let delay = random_below(MAX_SPAWN_DELAY_MS);
        proof {
            assert(self.entities@.subrange(0, old(self).entities@.len() as int)
                =~= old(self).entities@);
        }
        (id, delay)
    }

    /// Delivery point of an expiry event: every member carrying `id` is
    /// deactivated; an id no longer present is a no-op.
    pub fn deactivate(&mut self, id: u64)
        ensures
            final(self).next_id == old(self).next_id,
            final(self).entities@.len() == old(self).entities@.len(),
            forall|i: int|
                0 <= i < old(self).entities@.len() ==> #[trigger] final(self).entities@[i] == (
                if old(self).entities@[i].id == id {
                    old(self).entities@[i].deactivated()
                } else {
                    old(self).entities@[i]
                }),
    {
        let n = self.entities.len();
        let mut i: usize = 0;
        while i < n
            invariant
                i <= n,
                n == self.entities@.len(),
                self.next_id == old(self).next_id,
                self.entities@.len() == old(self).entities@.len(),
                forall|j: int|
                    i <= j < old(self).entities@.len()
                        ==> #[trigger] self.entities@[j] == old(self).entities@[j],
                forall|j: int|
                    0 <= j < i ==> #[trigger] self.entities@[j] == (
                    if old(self).entities@[j].id == id {
                        old(self).entities@[j].deactivated()
                    } else {
                        old(self).entities@[j]
                    }),
            decreases n - i,
        {
            if self.entities[i].id == id {
                let mut p = self.entities[i];
                p.deactivate();
                self.entities.set(i, p);
            }
            i = i + 1;
        }
    }

    /// The orchestrator merges burst particles into the swarm, so that from
    /// then on they receive the uniform gravity and collision handling.
    pub fn adopt(&mut self, incoming: Vec<Particle>)
        ensures
            final(self).entities@ == old(self).entities@ + incoming@,
            final(self).next_id == old(self).next_id,
    {
        let n = incoming.len();
        let mut i: usize = 0;
        while i < n
            invariant
                i <= n,
                n == incoming@.len(),
                self.next_id == old(self).next_id,
                self.entities@ == old(self).entities@ + incoming@.take(i as int),
            decreases n - i,
        {
            proof {
                assert((old(self).entities@ + incoming@.take(i as int)).push(incoming@[i as int])
                    =~= old(self).entities@ + incoming@.take(i + 1));
            }
            self.entities.push(incoming[i]);
            i = i + 1;
        }
        proof {
            assert(incoming@.take(n as int) =~= incoming@);
        }
    }

    /// The orchestrator's collision pass, run before the frame's
    /// integration: every member whose geometry lies inside a solid's band
    /// accumulates an impulse cancelling its vertical velocity, once per
    /// colliding solid.
    pub fn resolve_collisions(&mut self, solids: &Vec<Solid>)
        requires
            forall|i: int|
                0 <= i < old(self).entities@.len()
                    ==> (#[trigger] old(self).entities@[i]).geometry_fits(),
            forall|i: int|
                0 <= i < old(self).entities@.len()
                    ==> collision_resolve_fits(#[trigger] old(self).entities@[i], solids@),
            forall|j: int|
                0 <= j < solids@.len() ==> (#[trigger] solids@[j]).query_fits(),
        ensures
            final(self).next_id == old(self).next_id,
            final(self).entities@.len() == old(self).entities@.len(),
            forall|i: int|
                0 <= i < old(self).entities@.len() ==> #[trigger] final(self).entities@[i]
                    == collision_resolved(old(self).entities@[i], solids@),
    {
        let n = self.entities.len();
        let m = solids.len();
        let mut i: usize = 0;
        while i < n
            invariant
                i <= n,
                n == self.entities@.len(),
                m == solids@.len(),
                self.next_id == old(self).next_id,
                self.entities@.len() == old(self).entities@.len(),
                forall|k: int|
                    0 <= k < old(self).entities@.len()
                        ==> (#[trigger] old(self).entities@[k]).geometry_fits(),
                forall|k: int|
                    0 <= k < old(self).entities@.len()
                        ==> collision_resolve_fits(#[trigger] old(self).entities@[k], solids@),
                forall|j: int|
                    0 <= j < solids@.len() ==> (#[trigger] solids@[j]).query_fits(),
                forall|k: int|
                    i <= k < old(self).entities@.len()
                        ==> #[trigger] self.entities@[k] == old(self).entities@[k],
                forall|k: int|
                    0 <= k < i ==> #[trigger] self.entities@[k]
                        == collision_resolved(old(self).entities@[k], solids@),
            decreases n - i,
        {
            let p = self.entities[i];
            proof {
                lemma_resolve_fits_prefix(p, solids@, 0);
                assert(solids@.take(0) =~= Seq::<Solid>::empty());
            }
            let g = p.get_geometry();
            let dy = 0 - p.velocity.y;
            let mut q = p;
            let mut j: usize = 0;
            while j < m
                invariant
                    j <= m,
                    m == solids@.len(),
                    g == p.geometry_of(),
                    dy == cancel_impulse(p).y,
                    collision_resolve_fits(p, solids@),
                    forall|l: int|
                        0 <= l < solids@.len() ==> (#[trigger] solids@[l]).query_fits(),
                    q == collision_resolved(p, solids@.take(j as int)),
                decreases m - j,
            {
                proof {
                    assert(solids@.take(j + 1).drop_last() =~= solids@.take(j as int));
                    assert(solids@.take(j + 1).last() == solids@[j as int]);
                    lemma_resolve_fits_prefix(p, solids@, j + 1);
                }
                if solids[j].is_colliding(g) {
                    q.push(Vec2 { x: 0, y: dy });
                }
                j = j + 1;
            }
            proof {
                assert(solids@.take(m as int) =~= solids@);
            }
            self.entities.set(i, q);
            i = i + 1;
        }
    }
}

} // verus!
