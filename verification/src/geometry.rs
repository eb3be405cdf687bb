//! Bounding boxes and the shapes that trajectories follow.
use vstd::prelude::*;
use crate::basic::{
    all_resolvable, first_failure, fails_first_at, is_real_literal, literal_of, real_literal,
    Double, UnsignedInt,
};
use crate::error::Error;
use crate::params::ParameterMap;
use crate::positions::trajectory::Clothoid;
use crate::positions::Position;

verus! {

/// The center of a bounding box, relative to the reference point of its entity.
#[derive(Debug, Clone, PartialEq)]
pub struct Center {
    pub x: Double,
    pub y: Double,
    pub z: Double,
}

/// The extent of a bounding box along the three axes of its entity.
#[derive(Debug, Clone, PartialEq)]
pub struct Dimensions {
    pub width: Double,
    pub length: Double,
    pub height: Double,
}

/// The box that encloses an entity.
#[derive(Debug, Clone, PartialEq)]
pub struct BoundingBox {
    pub center: Center,
    pub dimensions: Dimensions,
}

/// The shape that a trajectory follows: one of a polyline, a clothoid, a spline of
/// clothoids or a NURBS curve.
#[derive(Debug, Clone, PartialEq)]
pub struct Shape {
    pub polyline: Option<Polyline>,
    pub clothoid: Option<Clothoid>,
    pub clothoid_spline: Option<ClothoidSpline>,
    pub nurbs: Option<Nurbs>,
}

/// A sequence of vertices joined by straight lines.
#[derive(Debug, Clone, PartialEq)]
pub struct Polyline {
    pub vertices: Vec<Vertex>,
}

/// A vertex of a polyline, with the time at which it is passed.
#[derive(Debug, Clone, PartialEq)]
pub struct Vertex {
    pub time: Option<Double>,
    pub position: Position,
}

/// A chain of clothoid segments.
#[derive(Debug, Clone, PartialEq)]
pub struct ClothoidSpline {
    pub segments: Vec<ClothoidSplineSegment>,
    pub time_end: Option<Double>,
}

/// One segment of a clothoid spline.
#[derive(Debug, Clone, PartialEq)]
pub struct ClothoidSplineSegment {
    pub curvature_start: Double,
    pub curvature_end: Double,
    pub length: Double,
    pub h_offset: Option<Double>,
    pub time_start: Option<Double>,
    pub position_start: Option<Position>,
}

/// A non-uniform rational B-spline.
#[derive(Debug, Clone, PartialEq)]
pub struct Nurbs {
    pub order: UnsignedInt,
    pub control_points: Vec<ControlPoint>,
    pub knots: Vec<Knot>,
}

/// A control point of a NURBS curve.
#[derive(Debug, Clone, PartialEq)]
pub struct ControlPoint {
    pub position: Position,
    pub time: Option<Double>,
    pub weight: Option<Double>,
}

/// A knot of a NURBS curve.
#[derive(Debug, Clone, PartialEq)]
pub struct Knot {
    pub value: Double,
}

impl Default for Center {
    /// The center of a passenger car's box: 1.4 m ahead of the rear axle, 0.9 m up.
    fn default() -> (r: Center)
        ensures
            is_real_literal(r.x, "1.4"@),
            is_real_literal(r.y, "0.0"@),
            is_real_literal(r.z, "0.9"@),
    {
        Center { x: real_literal("1.4"), y: real_literal("0.0"), z: real_literal("0.9") }
    }
}

impl Default for Dimensions {
    /// The dimensions of a passenger car: 2.0 m wide, 4.5 m long, 1.8 m high.
    fn default() -> (r: Dimensions)
        ensures
            is_real_literal(r.width, "2.0"@),
            is_real_literal(r.length, "4.5"@),
            is_real_literal(r.height, "1.8"@),
    {
        Dimensions {
            width: real_literal("2.0"),
            length: real_literal("4.5"),
            height: real_literal("1.8"),
        }
    }
}

impl Dimensions {
    /// The dimensions of a truck: 2.5 m wide, 12.0 m long, 3.5 m high.
    pub fn truck_default() -> (r: Dimensions)
        ensures
            is_real_literal(r.width, "2.5"@),
            is_real_literal(r.length, "12.0"@),
            is_real_literal(r.height, "3.5"@),
    {
        Dimensions {
            width: real_literal("2.5"),
            length: real_literal("12.0"),
            height: real_literal("3.5"),
        }
    }

    /// The dimensions of a motorcycle: 0.8 m wide, 2.2 m long, 1.5 m high.
    pub fn motorcycle() -> (r: Dimensions)
        ensures
            is_real_literal(r.width, "0.8"@),
            is_real_literal(r.length, "2.2"@),
            is_real_literal(r.height, "1.5"@),
    {
        Dimensions {
            width: real_literal("0.8"),
            length: real_literal("2.2"),
            height: real_literal("1.5"),
        }
    }
}

/// Whether `b` is the box of a passenger car: center `1.4`, `0.0`, `0.9`; width
/// `2.0`, length `4.5`, height `1.8`.
pub open spec fn is_default_box(b: BoundingBox) -> bool {
    &&& is_real_literal(b.center.x, "1.4"@)
    &&& is_real_literal(b.center.y, "0.0"@)
    &&& is_real_literal(b.center.z, "0.9"@)
    &&& is_real_literal(b.dimensions.width, "2.0"@)
    &&& is_real_literal(b.dimensions.length, "4.5"@)
    &&& is_real_literal(b.dimensions.height, "1.8"@)
}

impl Default for BoundingBox {
    /// The box of a passenger car: the default center and dimensions.
    fn default() -> (r: BoundingBox)
        ensures
            is_default_box(r),
    {
        BoundingBox { center: Center::default(), dimensions: Dimensions::default() }
    }
}

impl BoundingBox {
    /// The six values of the box, in the order in which they are resolved: the center's
    /// `x`, `y`, `z`, then the width, length and height.
    pub open spec fn values(self) -> Seq<Double> {
        seq![
            self.center.x,
            self.center.y,
            self.center.z,
            self.dimensions.width,
            self.dimensions.length,
            self.dimensions.height,
        ]
    }

    /// Whether `out` is this box with each of its values replaced by the literal it
    /// resolves to under `params`.
    pub open spec fn resolved_as(self, params: ParameterMap, out: BoundingBox) -> bool {
        &&& literal_of(out.center.x, self.center.x, params)
        &&& literal_of(out.center.y, self.center.y, params)
        &&& literal_of(out.center.z, self.center.z, params)
        &&& literal_of(out.dimensions.width, self.dimensions.width, params)
        &&& literal_of(out.dimensions.length, self.dimensions.length, params)
        &&& literal_of(out.dimensions.height, self.dimensions.height, params)
    }

    /// This box with every value resolved to a literal under `params`; the error of
    /// the first value that does not resolve, in the order of [`BoundingBox::values`].
    pub fn resolve_parameters(&self, params: &ParameterMap) -> (r: Result<BoundingBox, Error>)
        ensures
            match r {
                Ok(out) => all_resolvable(self.values(), *params) && self.resolved_as(*params, out),
                Err(e) => first_failure(self.values(), *params, e),
            },
    {
        let ghost vals = self.values();
        let x = match self.center.x.resolve_to_literal(params) {
            Ok(v) => v,
            Err(e) => {
                assert(fails_first_at(vals, *params, 0, e));
                return Err(e);
            },
        };
        let y = match self.center.y.resolve_to_literal(params) {
            Ok(v) => v,
            Err(e) => {
                assert(fails_first_at(vals, *params, 1, e));
                return Err(e);
            },
        };
        let z = match self.center.z.resolve_to_literal(params) {
            Ok(v) => v,
            Err(e) => {
                assert(fails_first_at(vals, *params, 2, e));
                return Err(e);
            },
        };
        let width = match self.dimensions.width.resolve_to_literal(params) {
            Ok(v) => v,
            Err(e) => {
                assert(fails_first_at(vals, *params, 3, e));
                return Err(e);
            },
        };
        let length = match self.dimensions.length.resolve_to_literal(params) {
            Ok(v) => v,
            Err(e) => {
                assert(fails_first_at(vals, *params, 4, e));
                return Err(e);
            },
        };
        let height = match self.dimensions.height.resolve_to_literal(params) {
            Ok(v) => v,
            Err(e) => {
                assert(fails_first_at(vals, *params, 5, e));
                return Err(e);
            },
        };
        Ok(BoundingBox {
            center: Center { x, y, z },
            dimensions: Dimensions { width, length, height },
        })
    }
}

impl Shape {
    /// A shape with no branch chosen.
    pub fn empty() -> (r: Shape)
        ensures
            r.polyline is None,
            r.clothoid is None,
            r.clothoid_spline is None,
            r.nurbs is None,
    {
        Shape { polyline: None, clothoid: None, clothoid_spline: None, nurbs: None }
    }
}

} // verus!
