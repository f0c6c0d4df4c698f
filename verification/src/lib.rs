//! A small verified particle engine: point masses under gravity and
//! collision, registries that integrate and prune them each frame, and the
//! deterministic half of a timed self-expiry mechanism whose timers run
//! outside the library.

pub mod burst;
pub mod geom;
pub mod particle;
pub mod rng;
pub mod solid;
pub mod swarm;

pub use burst::ExplodingParticles;
pub use particle::Particle;
pub use solid::Solid;
pub use swarm::GravityHandler;

pub use geom::Color;
pub use geom::Geometry;
pub use geom::Snapshot;
pub use geom::Vec2;
