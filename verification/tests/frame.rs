use particles::geom::Color;
use particles::geom::Geometry;
use particles::geom::Vec2;
use particles::GravityHandler;
use particles::Solid;

fn fixed_color() -> Color {
    Color { red: 100, green: 200, blue: 300, alpha: 1000 }
}

fn band_solid() -> Solid {
    Solid::new(Geometry { x0: 0, y0: 0, x1: 20000, y1: 20000 }, 10000)
}

#[test]
fn collision_cancels_vertical_velocity() {
    let mut h = GravityHandler::new();
    h.spawn_one_with(Vec2 { x: 10000, y: 10000 }, Vec2 { x: 500, y: 700 }, fixed_color());
    let solids = vec![band_solid()];
    h.resolve_collisions(&solids);
    assert_eq!(h.entities[0].acceleration, Vec2 { x: 0, y: -700 });
    // The full frame order: after integration the fall is reduced to the
    // gravity of this frame alone.
    h.run();
    assert_eq!(h.entities[0].velocity, Vec2 { x: 500, y: 98 });
    assert_eq!(h.entities[0].point, Vec2 { x: 10500, y: 10098 });
}

#[test]
fn two_overlapping_solids_apply_two_impulses() {
    let mut h = GravityHandler::new();
    h.spawn_one_with(Vec2 { x: 10000, y: 10000 }, Vec2 { x: 0, y: 700 }, fixed_color());
    let solids = vec![band_solid(), band_solid()];
    h.resolve_collisions(&solids);
    assert_eq!(h.entities[0].acceleration, Vec2 { x: 0, y: -1400 });
}

#[test]
fn missed_solid_applies_no_impulse() {
    let mut h = GravityHandler::new();
    h.spawn_one_with(Vec2 { x: 50000, y: 10000 }, Vec2 { x: 0, y: 700 }, fixed_color());
    let solids = vec![band_solid()];
    h.resolve_collisions(&solids);
    assert_eq!(h.entities[0].acceleration, Vec2 { x: 0, y: 0 });
    assert_eq!(h.entities[0].velocity, Vec2 { x: 0, y: 700 });
}

#[test]
fn merged_burst_receives_uniform_gravity() {
    let mut h = GravityHandler::new();
    let mut e = particles::ExplodingParticles::new().with_origin(Vec2 { x: 1000, y: 1000 });
    e.trigger();
    h.adopt(e.take_particles());
    assert_eq!(h.entities.len(), 50);
    let vy_before: Vec<i64> = h.entities.iter().map(|p| p.velocity.y).collect();
    h.run();
    for (k, p) in h.entities.iter().enumerate() {
        assert_eq!(p.velocity.y, vy_before[k] + 98);
    }
}
