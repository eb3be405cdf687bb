//! Trajectories as catalogs hold them, and their resolution into scenario trajectories.
use vstd::prelude::*;
use crate::actions::movement::Trajectory;
use crate::basic::{
    literal_of, name_resolution, resolve_parameter, resolved_name, Boolean, Double, Int, OSString,
    ParameterDeclarations, Value,
};
use crate::catalogs::entities::{CatalogEntity, ParameterDefinition};
use crate::duplicate::Duplicate;
use crate::error::{Error, ErrorView};
use crate::geometry::{ClothoidSpline, ControlPoint, Knot, Nurbs, Polyline, Shape, Vertex};
use crate::params::ParameterMap;
use crate::positions::trajectory::Clothoid;
use crate::positions::Position;
use crate::text::{decimal_text, i32_decimal_text};

verus! {

/// A catalog of trajectories.
#[derive(Debug, Clone, PartialEq)]
pub struct TrajectoryCatalog {
    pub rev_major: Int,
    pub rev_minor: Int,
    pub trajectories: Vec<CatalogTrajectory>,
}

/// A trajectory of a catalog.
#[derive(Debug, Clone, PartialEq)]
pub struct CatalogTrajectory {
    pub name: String,
    pub closed: Boolean,
    pub parameter_declarations: Option<ParameterDeclarations>,
    pub shape: CatalogShape,
}

/// The shape element of a catalog trajectory, which holds one shape.
#[derive(Debug, Clone, PartialEq)]
pub struct CatalogShape {
    pub shape: CatalogTrajectoryShape,
}

/// The shape of a catalog trajectory.
#[derive(Debug, Clone, PartialEq)]
pub enum CatalogTrajectoryShape {
    Polyline(CatalogPolyline),
    Clothoid(CatalogClothoid),
    ClothoidSpline(ClothoidSpline),
    Nurbs(CatalogNurbs),
}

/// A polyline of a catalog trajectory.
#[derive(Debug, Clone, PartialEq)]
pub struct CatalogPolyline {
    pub vertices: Vec<CatalogVertex>,
}

/// A vertex of a catalog polyline, with the time at which it is passed.
#[derive(Debug, Clone, PartialEq)]
pub struct CatalogVertex {
    pub time: Option<Double>,
    pub position: Position,
}

/// A clothoid of a catalog trajectory.
#[derive(Debug, Clone, PartialEq)]
pub struct CatalogClothoid {
    pub curvature: Double,
    pub curvature_dot: Option<Double>,
    pub length: Double,
    pub start_position: Position,
}

/// A NURBS curve of a catalog trajectory.
#[derive(Debug, Clone, PartialEq)]
pub struct CatalogNurbs {
    pub order: Int,
    pub control_points: Vec<NurbsControlPoint>,
    pub knots: Vec<NurbsKnot>,
}

/// A control point of a catalog NURBS curve.
#[derive(Debug, Clone, PartialEq)]
pub struct NurbsControlPoint {
    pub position: Position,
    pub weight: Option<Double>,
}

/// A knot of a catalog NURBS curve.
#[derive(Debug, Clone, PartialEq)]
pub struct NurbsKnot {
    pub value: Double,
}

impl Default for TrajectoryCatalog {
    /// An empty catalog of revision 1.0.
    fn default() -> (r: TrajectoryCatalog)
        ensures
            r.rev_major == Value::<i32>::Literal(1),
            r.rev_minor == Value::<i32>::Literal(0),
            r.trajectories@.len() == 0,
    {
        TrajectoryCatalog {
            rev_major: Value::Literal(1),
            rev_minor: Value::Literal(0),
            trajectories: Vec::new(),
        }
    }
}

impl Default for CatalogTrajectory {
    /// An open trajectory named `DefaultCatalogTrajectory` whose shape is an empty
    /// polyline.
    fn default() -> (r: CatalogTrajectory)
        ensures
            r.name@ == "DefaultCatalogTrajectory"@,
            r.closed == Value::<bool>::Literal(false),
            r.parameter_declarations is None,
            r.shape.shape matches CatalogTrajectoryShape::Polyline(p) && p.vertices@.len() == 0,
    {
        CatalogTrajectory {
            name: "DefaultCatalogTrajectory".to_owned(),
            closed: Value::Literal(false),
            parameter_declarations: None,
            shape: CatalogShape::new(CatalogTrajectoryShape::Polyline(CatalogPolyline { vertices: Vec::new() })),
        }
    }
}

impl CatalogShape {
    /// The shape element holding `shape`.
    pub fn new(shape: CatalogTrajectoryShape) -> (r: CatalogShape)
        ensures
            r.shape == shape,
    {
        CatalogShape { shape }
    }
}

impl TrajectoryCatalog {
    /// An empty catalog of revision `rev_major`.`rev_minor`.
    pub fn new(rev_major: i32, rev_minor: i32) -> (r: TrajectoryCatalog)
        ensures
            r.rev_major == Value::<i32>::Literal(rev_major),
            r.rev_minor == Value::<i32>::Literal(rev_minor),
            r.trajectories@.len() == 0,
    {
        TrajectoryCatalog {
            rev_major: Value::Literal(rev_major),
            rev_minor: Value::Literal(rev_minor),
            trajectories: Vec::new(),
        }
    }

    /// Appends `trajectory` to the catalog.
    pub fn add_trajectory(&mut self, trajectory: CatalogTrajectory)
        ensures
            final(self).trajectories@ == old(self).trajectories@.push(trajectory),
            final(self).rev_major == old(self).rev_major,
            final(self).rev_minor == old(self).rev_minor,
    {
        self.trajectories.push(trajectory);
    }

    /// The first trajectory named `name`, if any.
    pub fn find_trajectory(&self, name: &str) -> (r: Option<&CatalogTrajectory>)
        ensures
            match r {
                Some(t) => exists|i: int| {
                    &&& 0 <= i < self.trajectories@.len()
                    &&& self.trajectories@[i] == *t
                    &&& t.name@ == name@
                    &&& forall|j: int| 0 <= j < i ==> #[trigger] self.trajectories@[j].name@ != name@
                },
                None => forall|j: int| 0 <= j < self.trajectories@.len() ==> #[trigger] self.trajectories@[j].name@ != name@,
            },
    {
        let mut i: usize = 0;
        while i < self.trajectories.len()
            invariant
                i <= self.trajectories@.len(),
                forall|j: int| 0 <= j < i ==> #[trigger] self.trajectories@[j].name@ != name@,
            decreases self.trajectories@.len() - i,
        {
            if crate::text::str_eq(self.trajectories[i].name.as_str(), name) {
                return Some(&self.trajectories[i]);
            }
            i = i + 1;
        }
        None
    }

    /// The names of the trajectories, in order.
    pub fn trajectory_names(&self) -> (r: Vec<&str>)
        ensures
            r@.len() == self.trajectories@.len(),
            forall|i: int| 0 <= i < r@.len() ==> #[trigger] r@[i]@ == self.trajectories@[i].name@,
    {
        let mut r: Vec<&str> = Vec::new();
        let mut i: usize = 0;
        while i < self.trajectories.len()
            invariant
                i <= self.trajectories@.len(),
                r@.len() == i,
                forall|j: int| 0 <= j < i ==> #[trigger] r@[j]@ == self.trajectories@[j].name@,
            decreases self.trajectories@.len() - i,
        {
            r.push(self.trajectories[i].name.as_str());
            i = i + 1;
        }
        r
    }
}

/// Whether `out` is the scenario shape of the catalog shape `shape` under `params`:
/// the chosen branch carried over with its vertices, control points and knots copied,
/// a clothoid's curvature and length resolved, and a NURBS curve's order resolved.
pub open spec fn shape_resolved_as(shape: CatalogTrajectoryShape, params: ParameterMap, out: Shape) -> bool {
    match shape {
        CatalogTrajectoryShape::Polyline(p) => {
            &&& out.clothoid is None
            &&& out.clothoid_spline is None
            &&& out.nurbs is None
            &&& out.polyline matches Some(q) && q.vertices@.len() == p.vertices@.len()
                && forall|i: int| 0 <= i < p.vertices@.len() ==> {
                    &&& (#[trigger] q.vertices@[i]).time.same(&p.vertices@[i].time)
                    &&& q.vertices@[i].position.same_as(&p.vertices@[i].position)
                }
        },
        CatalogTrajectoryShape::Clothoid(c) => {
            &&& out.polyline is None
            &&& out.clothoid_spline is None
            &&& out.nurbs is None
            &&& out.clothoid matches Some(k) && {
                &&& literal_of(k.curvature, c.curvature, params)
                &&& k.curvature_dot.same(&c.curvature_dot)
                &&& k.curvature_prime is None
                &&& literal_of(k.length, c.length, params)
                &&& k.start_time is None
                &&& k.stop_time is None
                &&& k.start_position.same_as(&c.start_position)
            }
        },
        CatalogTrajectoryShape::ClothoidSpline(s) => {
            &&& out.polyline is None
            &&& out.clothoid is None
            &&& out.nurbs is None
            &&& out.clothoid_spline matches Some(t) && t.same_as(&s)
        },
        CatalogTrajectoryShape::Nurbs(n) => {
            &&& out.polyline is None
            &&& out.clothoid is None
            &&& out.clothoid_spline is None
            &&& out.nurbs matches Some(m) && {
                &&& exists|order: i32| n.order.resolves_to(params, Ok(order)) && order >= 0
                    && m.order == Value::<u32>::Literal(order as u32)
                &&& m.control_points@.len() == n.control_points@.len()
                &&& forall|i: int| 0 <= i < n.control_points@.len() ==> {
                    &&& (#[trigger] m.control_points@[i]).position.same_as(&n.control_points@[i].position)
                    &&& m.control_points@[i].time is None
                    &&& m.control_points@[i].weight.same(&n.control_points@[i].weight)
                }
                &&& m.knots@.len() == n.knots@.len()
                &&& forall|i: int| 0 <= i < n.knots@.len() ==> (#[trigger] m.knots@[i]).value.same(&n.knots@[i].value)
            }
        },
    }
}

/// Whether the catalog shape `shape` resolves under `params`: a clothoid whose
/// curvature and length resolve, a NURBS curve whose order resolves to a number that is
/// not negative, or any other shape.
pub open spec fn shape_resolvable(shape: CatalogTrajectoryShape, params: ParameterMap) -> bool {
    match shape {
        CatalogTrajectoryShape::Clothoid(c) => c.curvature.resolvable(params) && c.length.resolvable(params),
        CatalogTrajectoryShape::Nurbs(n) => exists|order: i32| n.order.resolves_to(params, Ok(order)) && order >= 0,
        _ => true,
    }
}

/// Whether resolving the catalog shape `shape` under `params` fails with `e`: a
/// clothoid whose curvature, then length, does not resolve; a NURBS curve whose order
/// does not resolve or is negative.
pub open spec fn shape_fails_with(shape: CatalogTrajectoryShape, params: ParameterMap, e: Error) -> bool {
    match shape {
        CatalogTrajectoryShape::Clothoid(c) => {
            ||| !c.curvature.resolvable(params) && c.curvature.resolves_to(params, Err(e))
            ||| c.curvature.resolvable(params) && !c.length.resolvable(params) && c.length.resolves_to(params, Err(e))
        },
        CatalogTrajectoryShape::Nurbs(n) => {
            ||| !n.order.resolvable(params) && n.order.resolves_to(params, Err(e))
            ||| exists|order: i32| n.order.resolves_to(params, Ok(order)) && order < 0 && e@ == (ErrorView::InvalidValue {
                field: "Nurbs.order"@,
                value: i32_decimal_text(order as int),
                expected: "NURBS order must be a non-negative integer"@,
            })
        },
        _ => false,
    }
}

impl CatalogTrajectory {
    /// An open trajectory named `name` with shape `shape` and no parameters.
    pub fn new(name: String, shape: CatalogTrajectoryShape) -> (r: CatalogTrajectory)
        ensures
            r.name == name,
            r.closed == Value::<bool>::Literal(false),
            r.parameter_declarations is None,
            r.shape.shape == shape,
    {
        CatalogTrajectory {
            name,
            closed: Value::Literal(false),
            parameter_declarations: None,
            shape: CatalogShape::new(shape),
        }
    }

    /// An open trajectory named `name` with shape `shape` that declares `parameters`.
    pub fn with_parameters(name: String, shape: CatalogTrajectoryShape, parameters: ParameterDeclarations) -> (r: CatalogTrajectory)
        ensures
            r.name == name,
            r.closed == Value::<bool>::Literal(false),
            r.parameter_declarations == Some(parameters),
            r.shape.shape == shape,
    {
        CatalogTrajectory {
            name,
            closed: Value::Literal(false),
            parameter_declarations: Some(parameters),
            shape: CatalogShape::new(shape),
        }
    }

    /// A trajectory named `name` with shape `shape`, closed or not, and no parameters.
    pub fn with_closed(name: String, shape: CatalogTrajectoryShape, closed: bool) -> (r: CatalogTrajectory)
        ensures
            r.name == name,
            r.closed == Value::<bool>::Literal(closed),
            r.parameter_declarations is None,
            r.shape.shape == shape,
    {
        CatalogTrajectory {
            name,
            closed: Value::Literal(closed),
            parameter_declarations: None,
            shape: CatalogShape::new(shape),
        }
    }

    /// The scenario shape of this trajectory's shape under `parameters`.
    fn resolve_shape(&self, parameters: &ParameterMap) -> (r: Result<Shape, Error>)
        ensures
            match r {
                Ok(s) => shape_resolvable(self.shape.shape, *parameters)
                    && shape_resolved_as(self.shape.shape, *parameters, s),
                Err(e) => !shape_resolvable(self.shape.shape, *parameters)
                    && shape_fails_with(self.shape.shape, *parameters, e),
            },
    {
        match &self.shape.shape {
            CatalogTrajectoryShape::Polyline(polyline) => {
                let mut vertices: Vec<Vertex> = Vec::new();
                let mut i: usize = 0;
                while i < polyline.vertices.len()
                    invariant
                        i <= polyline.vertices@.len(),
                        vertices@.len() == i,
                        forall|j: int| 0 <= j < i ==> {
                            &&& (#[trigger] vertices@[j]).time.same(&polyline.vertices@[j].time)
                            &&& vertices@[j].position.same_as(&polyline.vertices@[j].position)
                        },
                    decreases polyline.vertices@.len() - i,
                {
                    let v = &polyline.vertices[i];
                    vertices.push(Vertex { time: v.time.copied(), position: v.position.deep_copy() });
                    i = i + 1;
                }
                Ok(Shape {
                    polyline: Some(Polyline { vertices }),
                    clothoid: None,
                    clothoid_spline: None,
                    nurbs: None,
                })
            },
            CatalogTrajectoryShape::Clothoid(clothoid) => {
                let curvature = match clothoid.curvature.resolve_to_literal(parameters) {
                    Ok(c) => c,
                    Err(e) => return Err(e),
                };
                let length = match clothoid.length.resolve_to_literal(parameters) {
                    Ok(l) => l,
                    Err(e) => return Err(e),
                };
                Ok(Shape {
                    polyline: None,
                    clothoid: Some(Clothoid {
                        curvature,
                        curvature_dot: clothoid.curvature_dot.copied(),
                        curvature_prime: None,
                        length,
                        start_time: None,
                        stop_time: None,
                        start_position: clothoid.start_position.deep_copy(),
                    }),
                    clothoid_spline: None,
                    nurbs: None,
                })
            },
            CatalogTrajectoryShape::ClothoidSpline(spline) => Ok(Shape {
                polyline: None,
                clothoid: None,
                clothoid_spline: Some(spline.deep_copy()),
                nurbs: None,
            }),
            CatalogTrajectoryShape::Nurbs(nurbs) => {
                let order = match nurbs.order.resolve(parameters) {
                    Ok(o) => o,
                    Err(e) => return Err(e),
                };
                if order < 0 {
                    let text = decimal_text(order);
                    return Err(Error::invalid_value(
                        "Nurbs.order",
                        text.as_str(),
                        "NURBS order must be a non-negative integer",
                    ));
                }
                let mut control_points: Vec<ControlPoint> = Vec::new();
                let mut i: usize = 0;
                while i < nurbs.control_points.len()
                    invariant
                        i <= nurbs.control_points@.len(),
                        control_points@.len() == i,
                        forall|j: int| 0 <= j < i ==> {
                            &&& (#[trigger] control_points@[j]).position.same_as(&nurbs.control_points@[j].position)
                            &&& control_points@[j].time is None
                            &&& control_points@[j].weight.same(&nurbs.control_points@[j].weight)
                        },
                    decreases nurbs.control_points@.len() - i,
                {
                    let cp = &nurbs.control_points[i];
                    control_points.push(ControlPoint {
                        position: cp.position.deep_copy(),
                        time: None,
                        weight: cp.weight.copied(),
                    });
                    i = i + 1;
                }
                let mut knots: Vec<Knot> = Vec::new();
                let mut k: usize = 0;
                while k < nurbs.knots.len()
                    invariant
                        k <= nurbs.knots@.len(),
                        knots@.len() == k,
                        forall|j: int| 0 <= j < k ==> (#[trigger] knots@[j]).value.same(&nurbs.knots@[j].value),
                    decreases nurbs.knots@.len() - k,
                {
                    knots.push(Knot { value: nurbs.knots[k].value.copied() });
                    k = k + 1;
                }
                let resolved = Nurbs { order: Value::Literal(order as u32), control_points, knots };
                assert(nurbs.order.resolves_to(*parameters, Ok(order)) && order >= 0
                    && resolved.order == Value::<u32>::Literal(order as u32));
                Ok(Shape { polyline: None, clothoid: None, clothoid_spline: None, nurbs: Some(resolved) })
            },
        }
    }

    /// The scenario trajectory that this entry stands for under `parameters`: its
    /// name and `closed` resolved and its shape resolved as [`shape_resolved_as`] says.
    /// The shape is resolved first, then the name, then `closed`; the first that
    /// fails gives the error.
    pub fn resolve_trajectory(&self, parameters: &ParameterMap) -> (r: Result<Trajectory, Error>)
        ensures
            match r {
                Ok(t) => {
                    &&& t.name matches Value::Literal(n) && resolved_name(self.name@, *parameters) == Some(n@)
                    &&& shape_resolvable(self.shape.shape, *parameters)
                    &&& shape_resolved_as(self.shape.shape, *parameters, t.shape)
                    &&& self.closed.resolvable(*parameters)
                    &&& literal_of(t.closed, self.closed, *parameters)
                },
                Err(e) => {
                    ||| !shape_resolvable(self.shape.shape, *parameters)
                        && shape_fails_with(self.shape.shape, *parameters, e)
                    ||| shape_resolvable(self.shape.shape, *parameters)
                        && name_resolution(self.name@, *parameters, Err(e))
                    ||| shape_resolvable(self.shape.shape, *parameters)
                        && resolved_name(self.name@, *parameters) is Some
                        && !self.closed.resolvable(*parameters)
                        && self.closed.resolves_to(*parameters, Err(e))
                },
            },
    {
        let shape = match self.resolve_shape(parameters) {
            Ok(s) => s,
            Err(e) => return Err(e),
        };
        let name = match resolve_parameter(self.name.as_str(), parameters) {
            Ok(n) => n,
            Err(e) => return Err(e),
        };
        let closed = match self.closed.resolve_to_literal(parameters) {
            Ok(c) => c,
            Err(e) => return Err(e),
        };
        Ok(Trajectory { name: Value::Literal(name), closed, shape })
    }
}

impl CatalogEntity for CatalogTrajectory {
    type ResolvedType = Trajectory;

    /// The scenario trajectory that this entry stands for under `parameters`, as
    /// [`CatalogTrajectory::resolve_trajectory`] gives it.
    fn into_scenario_entity(self, parameters: ParameterMap) -> (r: Result<Trajectory, Error>)
        ensures
            match r {
                Ok(t) => {
                    &&& t.name matches Value::Literal(n) && resolved_name(self.name@, parameters) == Some(n@)
                    &&& shape_resolvable(self.shape.shape, parameters)
                    &&& shape_resolved_as(self.shape.shape, parameters, t.shape)
                    &&& self.closed.resolvable(parameters)
                    &&& literal_of(t.closed, self.closed, parameters)
                },
                Err(e) => {
                    ||| !shape_resolvable(self.shape.shape, parameters)
                        && shape_fails_with(self.shape.shape, parameters, e)
                    ||| shape_resolvable(self.shape.shape, parameters)
                        && name_resolution(self.name@, parameters, Err(e))
                    ||| shape_resolvable(self.shape.shape, parameters)
                        && resolved_name(self.name@, parameters) is Some
                        && !self.closed.resolvable(parameters)
                        && self.closed.resolves_to(parameters, Err(e))
                },
            },
    {
        self.resolve_trajectory(&parameters)
    }

    /// The parameters that trajectory entries understand.
    fn parameter_schema() -> (r: Vec<ParameterDefinition>)
        ensures
            r@.len() == 3,
            r@[0].describes("StartTime"@, "Double"@, "0.0"@, "Start time of the trajectory in seconds"@),
            r@[1].describes("Duration"@, "Double"@, "60.0"@, "Duration of the trajectory in seconds"@),
            r@[2].describes(
                "Closed"@,
                "Boolean"@,
                "false"@,
                "Whether the trajectory is closed (loops back to start)"@,
            ),
    {
        vec![
            ParameterDefinition::new("StartTime", "Double", "0.0", "Start time of the trajectory in seconds"),
            ParameterDefinition::new("Duration", "Double", "60.0", "Duration of the trajectory in seconds"),
            ParameterDefinition::new(
                "Closed",
                "Boolean",
                "false",
                "Whether the trajectory is closed (loops back to start)",
            ),
        ]
    }

    /// The name of this entry.
    fn entity_name(&self) -> (r: &str)
        ensures
            r@ == self.name@,
    {
        self.name.as_str()
    }
}

impl CatalogPolyline {
    /// A polyline through `positions`, in order, with no times.
    pub fn from_positions(positions: Vec<Position>) -> (r: CatalogPolyline)
        ensures
            r.vertices@.len() == positions@.len(),
            forall|i: int| 0 <= i < positions@.len() ==> #[trigger] r.vertices@[i] == (CatalogVertex {
                time: None,
                position: positions@[i],
            }),
    {
        let ghost given = positions@;
        let mut vertices: Vec<CatalogVertex> = Vec::new();
        for p in it: positions.into_iter()
            invariant
                it.seq() == given,
                vertices@.len() == it.index(),
                forall|i: int| 0 <= i < it.index() ==> #[trigger] vertices@[i] == (CatalogVertex {
                    time: None,
                    position: given[i],
                }),
        {
            vertices.push(CatalogVertex { time: None, position: p });
        }
        CatalogPolyline { vertices }
    }

    /// Appends a vertex at `position`, passed at `time`.
    pub fn add_vertex(&mut self, position: Position, time: Option<Double>)
        ensures
            final(self).vertices@ == old(self).vertices@.push(CatalogVertex { time, position }),
    {
        self.vertices.push(CatalogVertex { time, position });
    }
}

impl CatalogClothoid {
    /// A clothoid with the given curvature, change of curvature and length, starting
    /// at the position with no branch chosen.
    pub fn new(curvature: Double, curvature_dot: Double, length: Double) -> (r: CatalogClothoid)
        ensures
            r == (CatalogClothoid {
                curvature,
                curvature_dot: Some(curvature_dot),
                length,
                start_position: Position::empty_spec(),
            }),
    {
        CatalogClothoid { curvature, curvature_dot: Some(curvature_dot), length, start_position: Position::empty() }
    }

    /// A clothoid with the given curvature, change of curvature and length, starting
    /// at `start_position`.
    pub fn with_start_position(
        curvature: Double,
        curvature_dot: Double,
        length: Double,
        start_position: Position,
    ) -> (r: CatalogClothoid)
        ensures
            r == (CatalogClothoid { curvature, curvature_dot: Some(curvature_dot), length, start_position }),
    {
        CatalogClothoid { curvature, curvature_dot: Some(curvature_dot), length, start_position }
    }
}

impl CatalogNurbs {
    /// A NURBS curve of order `order` with no control points and no knots.
    pub fn new(order: Int) -> (r: CatalogNurbs)
        ensures
            r.order == order,
            r.control_points@.len() == 0,
            r.knots@.len() == 0,
    {
        CatalogNurbs { order, control_points: Vec::new(), knots: Vec::new() }
    }

    /// Appends a control point at `position` with `weight`.
    pub fn add_control_point(&mut self, position: Position, weight: Option<Double>)
        ensures
            final(self).order == old(self).order,
            final(self).knots@ == old(self).knots@,
            final(self).control_points@ == old(self).control_points@.push(NurbsControlPoint { position, weight }),
    {
        self.control_points.push(NurbsControlPoint { position, weight });
    }

    /// Appends a knot of value `value`.
    pub fn add_knot(&mut self, value: Double)
        ensures
            final(self).order == old(self).order,
            final(self).control_points@ == old(self).control_points@,
            final(self).knots@ == old(self).knots@.push(NurbsKnot { value }),
    {
        self.knots.push(NurbsKnot { value });
    }
}

impl NurbsControlPoint {
    /// A control point at `position` with no weight.
    pub fn new(position: Position) -> (r: NurbsControlPoint)
        ensures
            r == (NurbsControlPoint { position, weight: None }),
    {
        NurbsControlPoint { position, weight: None }
    }

    /// A control point at `position` with weight `weight`.
    pub fn with_weight(position: Position, weight: Double) -> (r: NurbsControlPoint)
        ensures
            r == (NurbsControlPoint { position, weight: Some(weight) }),
    {
        NurbsControlPoint { position, weight: Some(weight) }
    }
}

impl NurbsKnot {
    /// A knot of value `value`.
    pub fn new(value: Double) -> (r: NurbsKnot)
        ensures
            r == (NurbsKnot { value }),
    {
        NurbsKnot { value }
    }
}

} // verus!
