//! Static axis-aligned collision volumes, read-only to the physics: a
//! horizontal band with small vertical slack, queried to veto particle
//! motion.

use vstd::prelude::*;

use crate::geom::fits_i64;
use crate::geom::Color;
use crate::geom::Geometry;
use crate::geom::Snapshot;
use crate::geom::SOLID_THRESHOLD;

verus! {

/// A static obstacle: a box, a tolerance below its lower bound, and the
/// stroke radius it is drawn (and vertically padded) with.
#[derive(Clone, Copy, PartialEq, Eq, Structural, Debug)]
pub struct Solid {
    pub geometry: Geometry,
    /// Tolerance on the lower vertical bound of the collision band.
    pub threshold: i64,
    /// Stroke radius; also the slack on the upper vertical bound.
    pub line_radius: i64,
    pub color: Color,
}

impl Solid {
    /// The inclusion test this volume answers: the queried box lies within
    /// the solid's horizontal extent, and vertically within the band widened
    /// by `threshold` below and by `line_radius` above.
    pub open spec fn collides(self, g: Geometry) -> bool {
        &&& g.x0 >= self.geometry.x0
        &&& g.x1 <= self.geometry.x1
        &&& g.y0 >= self.geometry.y0 - self.threshold
        &&& g.y1 <= self.geometry.y1 + self.line_radius
    }

    /// Whether the widened band bounds stay within machine range.
    pub open spec fn query_fits(self) -> bool {
        &&& fits_i64(self.geometry.y0 - self.threshold)
        &&& fits_i64(self.geometry.y1 + self.line_radius)
    }

    /// A solid over `geometry`, drawn with stroke radius `radius`, with the
    /// default lower tolerance and a fixed colour.
    pub fn new(geometry: Geometry, radius: i64) -> (r: Solid)
        ensures
            r == (Solid {
                geometry,
                threshold: SOLID_THRESHOLD,
                line_radius: radius,
                color: Color { red: 300, green: 500, blue: 600, alpha: 1000 },
            }),
    {
        Solid {
            geometry,
            threshold: SOLID_THRESHOLD,
            line_radius: radius,
            color: Color { red: 300, green: 500, blue: 600, alpha: 1000 },
        }
    }

    /// Solids take no part in the physics step.
    pub fn run(&mut self)
        ensures
            *final(self) == *old(self),
    {
    }

    /// Emit this solid's drawable to the renderer's sink.
    pub fn draw(&self, sink: &mut Vec<Snapshot>)
        ensures
            final(sink)@ == old(sink)@.push(Snapshot { geometry: self.geometry, color: self.color }),
    {
        let snapshot = Snapshot { geometry: self.geometry, color: self.color };
        sink.push(snapshot);
    }

    /// Whether the queried geometry lies inside this solid's collision band.
    pub fn is_colliding(&self, geometry: Geometry) -> (r: bool)
        requires
            self.query_fits(),
        ensures
            r == self.collides(geometry),
    {
        let x_check = geometry.x0 >= self.geometry.x0 && geometry.x1 <= self.geometry.x1;
        let y_check = geometry.y0 >= self.geometry.y0 - self.threshold
            && geometry.y1 <= self.geometry.y1 + self.line_radius;
        x_check && y_check
    }
}

} // verus!
