use particles::geom::Geometry;
use particles::geom::Snapshot;
use particles::Solid;

#[test]
fn inside_band_collides() {
    // A particle box of one unit at (10, 10) units against a solid over
    // (0, 0)..(20, 20) units with a stroke radius of ten units.
    let s = Solid::new(Geometry { x0: 0, y0: 0, x1: 20000, y1: 20000 }, 10000);
    assert_eq!(s.threshold, 2000);
    let g = Geometry { x0: 10000, y0: 10000, x1: 11000, y1: 11000 };
    assert!(s.is_colliding(g));
}

#[test]
fn far_solid_does_not_collide() {
    let s = Solid::new(Geometry { x0: 100000, y0: 100000, x1: 120000, y1: 120000 }, 10000);
    let g = Geometry { x0: 10000, y0: 10000, x1: 11000, y1: 11000 };
    assert!(!s.is_colliding(g));
}

#[test]
fn horizontal_extent_must_lie_within_the_span() {
    let s = Solid::new(Geometry { x0: 0, y0: 0, x1: 20000, y1: 20000 }, 10000);
    // Sticks out on the right.
    assert!(!s.is_colliding(Geometry { x0: 19500, y0: 10000, x1: 20500, y1: 11000 }));
    // Starts left of the span.
    assert!(!s.is_colliding(Geometry { x0: -500, y0: 10000, x1: 500, y1: 11000 }));
}

#[test]
fn vertical_band_edges_are_inclusive() {
    let s = Solid::new(Geometry { x0: 0, y0: 5000, x1: 20000, y1: 6000 }, 1000);
    // Exactly at the lower bound minus the threshold.
    assert!(s.is_colliding(Geometry { x0: 1000, y0: 3000, x1: 2000, y1: 6000 }));
    // One thousandth below it.
    assert!(!s.is_colliding(Geometry { x0: 1000, y0: 2999, x1: 2000, y1: 6000 }));
    // Exactly at the upper bound plus the stroke radius.
    assert!(s.is_colliding(Geometry { x0: 1000, y0: 3000, x1: 2000, y1: 7000 }));
    // One thousandth above it.
    assert!(!s.is_colliding(Geometry { x0: 1000, y0: 3000, x1: 2000, y1: 7001 }));
}

#[test]
fn run_and_draw_leave_the_solid_unchanged() {
    let mut s = Solid::new(Geometry { x0: 1, y0: 2, x1: 3, y1: 4 }, 5);
    let before = s;
    s.run();
    assert_eq!(s, before);
    let mut sink: Vec<Snapshot> = Vec::new();
    s.draw(&mut sink);
    assert_eq!(sink.len(), 1);
    assert_eq!(sink[0].geometry, s.geometry);
    assert_eq!(sink[0].color.red, 300);
    assert_eq!(sink[0].color.green, 500);
    assert_eq!(sink[0].color.blue, 600);
    assert_eq!(sink[0].color.alpha, 1000);
    assert_eq!(s, before);
}
