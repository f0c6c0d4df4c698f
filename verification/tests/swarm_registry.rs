use particles::geom::Color;
use particles::geom::Snapshot;
use particles::geom::Vec2;
use particles::GravityHandler;
use particles::Particle;

fn fixed_color() -> Color {
    Color { red: 100, green: 200, blue: 300, alpha: 1000 }
}

#[test]
fn ten_fixed_spawns_one_run() {
    let mut h = GravityHandler::new();
    let mut points: Vec<Vec2> = Vec::new();
    for k in 0..10i64 {
        let point = Vec2 { x: 1000 * k, y: 500 * k };
        points.push(point);
        h.spawn_one_with(point, Vec2 { x: 500, y: -500 }, fixed_color());
    }
    h.run();
    assert_eq!(h.entities.len(), 10);
    for (k, p) in h.entities.iter().enumerate() {
        assert_eq!(p.velocity, Vec2 { x: 500, y: -500 + 98 });
        assert_eq!(p.point, Vec2 { x: points[k].x + 500, y: points[k].y - 500 + 98 });
        assert!(p.active);
    }
}

#[test]
fn run_prunes_every_inactive_member() {
    let mut h = GravityHandler::new();
    let a = h.spawn_one_with(Vec2 { x: 0, y: 0 }, Vec2 { x: 0, y: 0 }, fixed_color());
    let b = h.spawn_one_with(Vec2 { x: 100, y: 0 }, Vec2 { x: 0, y: 0 }, fixed_color());
    let c = h.spawn_one_with(Vec2 { x: 200, y: 0 }, Vec2 { x: 0, y: 0 }, fixed_color());
    assert_eq!((a, b, c), (0, 1, 2));
    h.deactivate(b);
    h.run();
    assert_eq!(h.entities.len(), 2);
    assert!(h.entities.iter().all(|p| p.active));
    assert_eq!(h.entities[0].id, a);
    assert_eq!(h.entities[1].id, c);
    // The survivors received gravity and one step.
    assert_eq!(h.entities[0].velocity, Vec2 { x: 0, y: 98 });
    assert_eq!(h.entities[0].point, Vec2 { x: 0, y: 98 });
}

#[test]
fn deactivate_of_an_absent_id_is_a_noop() {
    let mut h = GravityHandler::new();
    h.spawn_one_with(Vec2 { x: 0, y: 0 }, Vec2 { x: 1, y: 2 }, fixed_color());
    let before = h.entities.clone();
    h.deactivate(999);
    assert_eq!(h.entities, before);
}

#[test]
fn operations_on_an_empty_registry_are_noops() {
    let mut h = GravityHandler::new();
    h.run();
    assert_eq!(h.entities.len(), 0);
    h.deactivate(0);
    let mut sink: Vec<Snapshot> = Vec::new();
    h.draw(&mut sink);
    assert_eq!(sink.len(), 0);
}

#[test]
fn spawn_one_draws_bounded_velocity_and_delay() {
    let mut h = GravityHandler::new();
    for k in 0..20u64 {
        let (id, delay) = h.spawn_one(Vec2 { x: 42, y: 43 });
        assert_eq!(id, k);
        assert!(delay < 5000);
        let p = h.entities.last().unwrap();
        assert_eq!(p.id, k);
        assert_eq!(p.point, Vec2 { x: 42, y: 43 });
        assert!(-1000 <= p.velocity.x && p.velocity.x < 1000);
        assert!(-1000 <= p.velocity.y && p.velocity.y < 1000);
        assert!(p.active);
        assert_eq!(p.acceleration, Vec2 { x: 0, y: 0 });
    }
    assert_eq!(h.next_id, 20);
    assert_eq!(h.entities.len(), 20);
}

#[test]
fn adopt_appends_in_order() {
    let mut h = GravityHandler::new();
    h.spawn_one_with(Vec2 { x: 0, y: 0 }, Vec2 { x: 0, y: 0 }, fixed_color());
    let incoming: Vec<Particle> = vec![
        Particle::new_with_color(Vec2 { x: 7, y: 8 }, fixed_color()),
        Particle::new_with_color(Vec2 { x: 9, y: 10 }, fixed_color()),
    ];
    h.adopt(incoming.clone());
    assert_eq!(h.entities.len(), 3);
    assert_eq!(h.entities[1], incoming[0]);
    assert_eq!(h.entities[2], incoming[1]);
}

#[test]
fn draw_emits_every_member_in_order() {
    let mut h = GravityHandler::new();
    h.spawn_one_with(Vec2 { x: 0, y: 0 }, Vec2 { x: 0, y: 0 }, fixed_color());
    h.spawn_one_with(Vec2 { x: 100, y: 200 }, Vec2 { x: 0, y: 0 }, fixed_color());
    let mut sink: Vec<Snapshot> = Vec::new();
    h.draw(&mut sink);
    assert_eq!(sink.len(), 2);
    assert_eq!(sink[0].geometry, h.entities[0].get_geometry());
    assert_eq!(sink[1].geometry, h.entities[1].get_geometry());
    // Drawing mutates nothing and appends on a second pass.
    h.draw(&mut sink);
    assert_eq!(sink.len(), 4);
}
