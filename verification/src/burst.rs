//! Explosion bursts: a batch of particles created at one origin with radial
//! random velocities and a fixed fade delay; integrated and pruned each
//! frame like the swarm, but never given gravity by this registry.

use vstd::prelude::*;

use crate::geom::valid_color;
use crate::geom::Color;
use crate::geom::Snapshot;
use crate::geom::Vec2;
use crate::geom::BURST_COUNT;
use crate::geom::BURST_FADE_MS;
use crate::geom::PARTICLE_RADIUS;
use crate::particle::snapshots_of;
use crate::particle::Particle;
use crate::rng::random_color;
use crate::rng::random_symmetric;

verus! {

/// A burst registry: its particles, the origin and radial speed bound of
/// the next trigger, the fixed fade delay its particles expire under, and
/// the counter that hands out their ids.
pub struct ExplodingParticles {
    pub particles: Vec<Particle>,
    pub origin: Vec2,
    /// Bound on the magnitude of each random velocity component.
    pub strength: i64,
    /// Expiry delay of every burst particle, in milliseconds.
    pub fading: u64,
    /// The id the next created particle will carry.
    pub next_id: u64,
}

impl ExplodingParticles {
    /// The burst's membership and state after one frame: every particle is
    /// integrated, then the inactive are pruned.
    pub open spec fn update_model(s: Seq<Particle>) -> Seq<Particle>
        decreases s.len(),
    {
        if s.len() == 0 {
            Seq::empty()
        } else {
            let rest = Self::update_model(s.drop_last());
            if s.last().stepped().active {
                rest.push(s.last().stepped())
            } else {
                rest
            }
        }
    }

    /// After a frame every member of the burst is active: integration keeps
    /// liveness and pruning removes the inactive.
    pub proof fn lemma_update_model_active(s: Seq<Particle>)
        ensures
            forall|i: int|
                0 <= i < Self::update_model(s).len()
                    ==> #[trigger] Self::update_model(s)[i].active,
        decreases s.len(),
    {
        if s.len() > 0 {
            Self::lemma_update_model_active(s.drop_last());
            let rest = Self::update_model(s.drop_last());
            if s.last().stepped().active {
                assert(Self::update_model(s) == rest.push(s.last().stepped()));
                assert forall|i: int| 0 <= i < Self::update_model(s).len()
                    implies #[trigger] Self::update_model(s)[i].active by {
                    if i < rest.len() {
                        assert(Self::update_model(s)[i] == rest[i]);
                    } else {
                        assert(Self::update_model(s)[i] == s.last().stepped());
                    }
                }
            } else {
                assert(Self::update_model(s) == rest);
            }
        }
    }

    /// An empty burst at the origin, with no radial speed, the default fade
    /// delay, and ids starting at zero.
    pub fn new() -> (r: ExplodingParticles)
        ensures
            r.particles@ == Seq::<Particle>::empty(),
            r.origin == (Vec2 { x: 0, y: 0 }),
            r.strength == 0,
            r.fading == BURST_FADE_MS,
            r.next_id == 0,
    {
        let r = ExplodingParticles {
            particles: Vec::new(),
            origin: Vec2 { x: 0, y: 0 },
            strength: 0,
            fading: BURST_FADE_MS,
            next_id: 0,
        };
        proof {
            assert(r.particles@ =~= Seq::<Particle>::empty());
        }
        r
    }

    /// Builder: the same burst with the origin overridden.
    pub fn with_origin(self, origin: Vec2) -> (r: ExplodingParticles)
        ensures
            r.particles@ == self.particles@,
            r.origin == origin,
            r.strength == self.strength,
            r.fading == self.fading,
            r.next_id == self.next_id,
    {
        ExplodingParticles { origin, ..self }
    }

    /// Builder: the same burst with the radial speed bound overridden.
    pub fn with_strength(self, strength: i64) -> (r: ExplodingParticles)
        ensures
            r.particles@ == self.particles@,
            r.origin == self.origin,
            r.strength == strength,
            r.fading == self.fading,
            r.next_id == self.next_id,
    {
        ExplodingParticles { strength, ..self }
    }

    /// Deterministic core of a trigger: append one fresh particle at the
    /// origin with the given velocity and colour, under the next id.
    pub fn spawn_burst_one(&mut self, velocity: Vec2, color: Color) -> (id: u64)
        requires
            old(self).next_id < u64::MAX,
        ensures
            id == old(self).next_id,
            final(self).next_id == old(self).next_id + 1,
            final(self).origin == old(self).origin,
            final(self).strength == old(self).strength,
            final(self).fading == old(self).fading,
            final(self).particles@ == old(self).particles@.push(
                Particle {
                    id: old(self).next_id,
                    point: old(self).origin,
                    velocity,
                    acceleration: Vec2 { x: 0, y: 0 },
                    radius: PARTICLE_RADIUS,
                    active: true,
                    color,
                },
            ),
    {
        let mut p = Particle::new_with_color(self.origin, color).with_velocity(velocity);
        p.id = self.next_id;
        self.particles.push(p);
        let id = self.next_id;
        self.next_id = self.next_id + 1;
        id
    }

    /// Create `BURST_COUNT` particles at the origin, each velocity component
    /// an independent draw bounded by `strength` (exactly zero when the
    /// strength is zero), and return their ids so the caller can arm the
    /// fade timer, `fading` milliseconds, for each of them.
    pub fn trigger(&mut self) -> (ids: Vec<u64>)
        requires
            0 <= old(self).strength,
            2 * old(self).strength <= i64::MAX,
            old(self).next_id + BURST_COUNT <= u64::MAX,
        ensures
            final(self).origin == old(self).origin,
            final(self).strength == old(self).strength,
            final(self).fading == old(self).fading,
            final(self).next_id == old(self).next_id + BURST_COUNT,
            final(self).particles@.len() == old(self).particles@.len() + BURST_COUNT,
            final(self).particles@.subrange(0, old(self).particles@.len() as int)
                == old(self).particles@,
            ids@.len() == BURST_COUNT,
            forall|k: int|
                0 <= k < BURST_COUNT ==> #[trigger] ids@[k] == old(self).next_id + k,
            forall|k: int|
                old(self).particles@.len() <= k < final(self).particles@.len() ==> {
                    let p = #[trigger] final(self).particles@[k];
                    &&& p.point == old(self).origin
                    &&& p.active
                    &&& p.acceleration == (Vec2 { x: 0, y: 0 })
                    &&& p.radius == PARTICLE_RADIUS
                    &&& -old(self).strength <= p.velocity.x <= old(self).strength
                    &&& -old(self).strength <= p.velocity.y <= old(self).strength
                    &&& (old(self).strength == 0 ==> p.velocity == (Vec2 { x: 0, y: 0 }))
                    &&& valid_color(p.color)
                    &&& p.id == old(self).next_id + (k - old(self).particles@.len())
                },
    {
        let mut ids: Vec<u64> = Vec::new();
        let mut k: usize = 0;
        while k < BURST_COUNT
            invariant
                k <= BURST_COUNT,
                0 <= self.strength,
                2 * self.strength <= i64::MAX,
                self.origin == old(self).origin,
                self.strength == old(self).strength,
                self.fading == old(self).fading,
                old(self).next_id + BURST_COUNT <= u64::MAX,
                self.next_id == old(self).next_id + k,
                self.particles@.len() == old(self).particles@.len() + k,
                self.particles@.subrange(0, old(self).particles@.len() as int)
                    == old(self).particles@,
                ids@.len() == k,
                forall|j: int| 0 <= j < k ==> #[trigger] ids@[j] == old(self).next_id + j,
                forall|j: int|
                    old(self).particles@.len() <= j < self.particles@.len() ==> {
                        let p = #[trigger] self.particles@[j];
                        &&& p.point == old(self).origin
                        &&& p.active
                        &&& p.acceleration == (Vec2 { x: 0, y: 0 })
                        &&& p.radius == PARTICLE_RADIUS
                        &&& -old(self).strength <= p.velocity.x <= old(self).strength
                        &&& -old(self).strength <= p.velocity.y <= old(self).strength
                        &&& (old(self).strength == 0 ==> p.velocity == (Vec2 { x: 0, y: 0 }))
                        &&& valid_color(p.color)
                        &&& p.id == old(self).next_id + (j - old(self).particles@.len())
                    },
            decreases BURST_COUNT - k,
        {
            let vx = random_symmetric(self.strength);
            let vy = random_symmetric(self.strength);
            let color = random_color();
            let ghost before = self.particles@;
            let id = self.spawn_burst_one(Vec2 { x: vx, y: vy }, color);
            proof {
                assert(self.particles@.subrange(0, old(self).particles@.len() as int)
                    =~= before.subrange(0, old(self).particles@.len() as int));
            }
            ids.push(id);
            k = k + 1;
        }
        ids
    }

    /// One frame: integrate every particle with whatever forces are pending
    /// (this registry applies none itself), then prune the inactive.
    pub fn update(&mut self)
        requires
            forall|i: int|
                0 <= i < old(self).particles@.len()
                    ==> (#[trigger] old(self).particles@[i]).step_fits(),
        ensures
            final(self).particles@ == Self::update_model(old(self).particles@),
            final(self).origin == old(self).origin,
            final(self).strength == old(self).strength,
            final(self).fading == old(self).fading,
            final(self).next_id == old(self).next_id,
            forall|i: int|
                0 <= i < final(self).particles@.len()
                    ==> #[trigger] final(self).particles@[i].active,
    {
        let n = self.particles.len();
        let mut survivors: Vec<Particle> = Vec::new();
        let mut i: usize = 0;
        while i < n
            invariant
                i <= n,
                n == self.particles@.len(),
                *self == *old(self),
                survivors@ == Self::update_model(self.particles@.take(i as int)),
                forall|j: int|
                    0 <= j < self.particles@.len()
                        ==> (#[trigger] self.particles@[j]).step_fits(),
            decreases n - i,
        {
            let p = self.particles[i];
            proof {
                assert(self.particles@.take(i + 1).drop_last() =~= self.particles@.take(i as int));
                assert(self.particles@.take(i + 1).last() == self.particles@[i as int]);
            }
            let mut q = p;
            q.run();
            if q.active {
                survivors.push(q);
            }
            i = i + 1;
        }
        proof {
            assert(self.particles@.take(n as int) =~= self.particles@);
            Self::lemma_update_model_active(self.particles@);
        }
        self.particles = survivors;
    }

    /// Emit every member's drawable, in order, to the renderer's sink; the
    /// particles themselves are untouched.
    pub fn draw(&self, sink: &mut Vec<Snapshot>)
        requires
            forall|i: int|
                0 <= i < self.particles@.len()
                    ==> (#[trigger] self.particles@[i]).geometry_fits(),
        ensures
            final(sink)@ == old(sink)@ + snapshots_of(self.particles@),
    {
        let n = self.particles.len();
        let mut i: usize = 0;
        while i < n
            invariant
                i <= n,
                n == self.particles@.len(),
                sink@ == old(sink)@ + snapshots_of(self.particles@.take(i as int)),
                forall|j: int|
                    0 <= j < self.particles@.len()
                        ==> (#[trigger] self.particles@[j]).geometry_fits(),
            decreases n - i,
        {
            proof {
                assert(self.particles@.take(i + 1).drop_last() =~= self.particles@.take(i as int));
                assert(self.particles@.take(i + 1).last() == self.particles@[i as int]);
            }
            self.particles[i].draw(sink);
            i = i + 1;
        }
        proof {
            assert(self.particles@.take(n as int) =~= self.particles@);
        }
    }

    /// Delivery point of an expiry event: every member carrying `id` is
    /// deactivated; an id no longer present is a no-op.
    pub fn deactivate(&mut self, id: u64)
        ensures
            final(self).origin == old(self).origin,
            final(self).strength == old(self).strength,
            final(self).fading == old(self).fading,
            final(self).next_id == old(self).next_id,
            final(self).particles@.len() == old(self).particles@.len(),
            forall|i: int|
                0 <= i < old(self).particles@.len() ==> #[trigger] final(self).particles@[i] == (
                if old(self).particles@[i].id == id {
                    old(self).particles@[i].deactivated()
                } else {
                    old(self).particles@[i]
                }),
    {
        let n = self.particles.len();
        let mut i: usize = 0;
        while i < n
            invariant
                i <= n,
                n == self.particles@.len(),
                self.origin == old(self).origin,
                self.strength == old(self).strength,
                self.fading == old(self).fading,
                self.next_id == old(self).next_id,
                self.particles@.len() == old(self).particles@.len(),
                forall|j: int|
                    i <= j < old(self).particles@.len()
                        ==> #[trigger] self.particles@[j] == old(self).particles@[j],
                forall|j: int|
                    0 <= j < i ==> #[trigger] self.particles@[j] == (
                    if old(self).particles@[j].id == id {
                        old(self).particles@[j].deactivated()
                    } else {
                        old(self).particles@[j]
                    }),
            decreases n - i,
        {
            if self.particles[i].id == id {
                let mut p = self.particles[i];
                p.deactivate();
                self.particles.set(i, p);
            }
            i = i + 1;
        }
    }

    /// Hand the whole batch over, leaving the burst empty: the orchestrator
    /// passes the result to the swarm's `adopt`.
    pub fn take_particles(&mut self) -> (r: Vec<Particle>)
        ensures
            r@ == old(self).particles@,
            final(self).particles@ == Seq::<Particle>::empty(),
            final(self).origin == old(self).origin,
            final(self).strength == old(self).strength,
            final(self).fading == old(self).fading,
            final(self).next_id == old(self).next_id,
    {
        let n = self.particles.len();
        let mut r: Vec<Particle> = Vec::new();
        let mut i: usize = 0;
        while i < n
            invariant
                i <= n,
                n == self.particles@.len(),
                *self == *old(self),
                r@ == self.particles@.take(i as int),
            decreases n - i,
        {
            proof {
                assert(self.particles@.take(i + 1).drop_last() =~= self.particles@.take(i as int));
                assert(self.particles@.take(i + 1).last() == self.particles@[i as int]);
            }
            r.push(self.particles[i]);
            i = i + 1;
        }
        proof {
            assert(self.particles@.take(n as int) =~= self.particles@);
        }
        self.particles = Vec::new();
        proof {
            assert(self.particles@ =~= Seq::<Particle>::empty());
        }
        r
    }
}

} // verus!
