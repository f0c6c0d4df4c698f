use particles::geom::Color;
use particles::geom::Snapshot;
use particles::geom::Vec2;
use particles::Particle;

fn fixed_color() -> Color {
    Color { red: 100, green: 200, blue: 300, alpha: 1000 }
}

#[test]
fn integration_from_rest_moves_by_the_force() {
    let mut p = Particle::new_with_color(Vec2 { x: 10, y: 20 }, fixed_color());
    p.push(Vec2 { x: 3, y: 4 });
    p.run();
    assert_eq!(p.velocity, Vec2 { x: 3, y: 4 });
    assert_eq!(p.point, Vec2 { x: 13, y: 24 });
}

#[test]
fn force_reset_after_many_pushes() {
    let mut p = Particle::new_with_color(Vec2 { x: 0, y: 0 }, fixed_color());
    p.push(Vec2 { x: 1, y: 2 });
    p.push(Vec2 { x: 10, y: 20 });
    p.push(Vec2 { x: -4, y: -8 });
    assert_eq!(p.acceleration, Vec2 { x: 7, y: 14 });
    p.run();
    assert_eq!(p.acceleration, Vec2 { x: 0, y: 0 });
}

#[test]
fn pushes_accumulate_additively_and_commute() {
    let mut a = Particle::new_with_color(Vec2 { x: 0, y: 0 }, fixed_color());
    a.push(Vec2 { x: 5, y: -3 });
    a.push(Vec2 { x: 2, y: 9 });
    let mut b = Particle::new_with_color(Vec2 { x: 0, y: 0 }, fixed_color());
    b.push(Vec2 { x: 2, y: 9 });
    b.push(Vec2 { x: 5, y: -3 });
    assert_eq!(a.acceleration, b.acceleration);
    assert_eq!(a.acceleration, Vec2 { x: 7, y: 6 });
}

#[test]
fn with_velocity_overrides_only_velocity() {
    let p = Particle::new_with_color(Vec2 { x: 1, y: 2 }, fixed_color());
    let q = p.with_velocity(Vec2 { x: 9, y: -9 });
    assert_eq!(q.velocity, Vec2 { x: 9, y: -9 });
    assert_eq!(q.point, p.point);
    assert_eq!(q.acceleration, p.acceleration);
    assert_eq!(q.color, p.color);
    assert_eq!(q.radius, p.radius);
    assert!(q.active);
}

#[test]
fn geometry_is_point_offset_by_radius() {
    let p = Particle::new_with_color(Vec2 { x: 10, y: 20 }, fixed_color());
    let g = p.get_geometry();
    assert_eq!(g.x0, 10);
    assert_eq!(g.y0, 20);
    assert_eq!(g.x1, 10 + 1000);
    assert_eq!(g.y1, 20 + 1000);
}

#[test]
fn new_draws_a_valid_color() {
    let p = Particle::new(Vec2 { x: 0, y: 0 });
    assert!(0 <= p.color.red && p.color.red < 1000);
    assert!(0 <= p.color.green && p.color.green < 1000);
    assert!(0 <= p.color.blue && p.color.blue < 1000);
    assert_eq!(p.color.alpha, 1000);
    assert!(p.active);
    assert_eq!(p.velocity, Vec2 { x: 0, y: 0 });
    assert_eq!(p.acceleration, Vec2 { x: 0, y: 0 });
}

#[test]
fn deactivation_is_permanent() {
    let mut p = Particle::new_with_color(Vec2 { x: 0, y: 0 }, fixed_color());
    assert!(p.active);
    p.deactivate();
    assert!(!p.active);
    p.push(Vec2 { x: 1, y: 1 });
    p.run();
    assert!(!p.active);
    p.deactivate();
    assert!(!p.active);
}

#[test]
fn draw_emits_one_snapshot() {
    let p = Particle::new_with_color(Vec2 { x: 5, y: 6 }, fixed_color());
    let mut sink: Vec<Snapshot> = Vec::new();
    p.draw(&mut sink);
    assert_eq!(sink.len(), 1);
    assert_eq!(sink[0].geometry, p.get_geometry());
    assert_eq!(sink[0].color, fixed_color());
}
