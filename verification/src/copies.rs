//! What a copy of each value of the data model is: the same content, field by field.
use vstd::prelude::*;
use core::marker::PhantomData;
use crate::duplicate::Duplicate;

verus! {

impl crate::positions::Position {
    /// Whether `other` holds the same content as `self`.
    pub open spec fn same_as(&self, other: &Self) -> bool
        decreases self,
    {
        self.world_position.same(&other.world_position)
        && self.relative_world_position.same(&other.relative_world_position)
        && self.road_position.same(&other.road_position)
        && self.relative_road_position.same(&other.relative_road_position)
        && self.lane_position.same(&other.lane_position)
        && self.relative_lane_position.same(&other.relative_lane_position)
        && (match (&self.route_position, &other.route_position) { (Some(x), Some(y)) => x.same_as(y), (None, None) => true, _ => false })
        && (match (&self.trajectory_position, &other.trajectory_position) { (Some(x), Some(y)) => x.same_as(y), (None, None) => true, _ => false })
        && self.geographic_position.same(&other.geographic_position)
        && self.relative_object_position.same(&other.relative_object_position)
    }

    /// A copy of this value.
    pub fn deep_copy(&self) -> (r: Self)
        ensures
            r.same_as(self),
        decreases self,
    {
        crate::positions::Position { world_position: self.world_position.copied(), relative_world_position: self.relative_world_position.copied(), road_position: self.road_position.copied(), relative_road_position: self.relative_road_position.copied(), lane_position: self.lane_position.copied(), relative_lane_position: self.relative_lane_position.copied(), route_position: match &self.route_position { Some(x) => Some(x.deep_copy()), None => None }, trajectory_position: match &self.trajectory_position { Some(x) => Some(x.deep_copy()), None => None }, geographic_position: self.geographic_position.copied(), relative_object_position: self.relative_object_position.copied() }
    }
}

impl crate::positions::trajectory::TrajectoryPosition {
    /// Whether `other` holds the same content as `self`.
    pub open spec fn same_as(&self, other: &Self) -> bool
        decreases self,
    {
        self.s.same(&other.s)
        && self.t.same(&other.t)
        && self.orientation.same(&other.orientation)
        && self.trajectory_ref.same_as(&other.trajectory_ref)
    }

    /// A copy of this value.
    pub fn deep_copy(&self) -> (r: Self)
        ensures
            r.same_as(self),
        decreases self,
    {
        crate::positions::trajectory::TrajectoryPosition { s: self.s.copied(), t: self.t.copied(), orientation: self.orientation.copied(), trajectory_ref: self.trajectory_ref.deep_copy() }
    }
}

impl crate::actions::movement::TrajectoryRef {
    /// Whether `other` holds the same content as `self`.
    pub open spec fn same_as(&self, other: &Self) -> bool
        decreases self,
    {
        (match (&self.trajectory, &other.trajectory) { (Some(x), Some(y)) => (**x).same_as(&**y), (None, None) => true, _ => false })
        && self.catalog_reference.same(&other.catalog_reference)
    }

    /// A copy of this value.
    pub fn deep_copy(&self) -> (r: Self)
        ensures
            r.same_as(self),
        decreases self,
    {
        crate::actions::movement::TrajectoryRef { trajectory: match &self.trajectory { Some(x) => Some(Box::new((**x).deep_copy())), None => None }, catalog_reference: self.catalog_reference.copied() }
    }
}

impl crate::actions::movement::Trajectory {
    /// Whether `other` holds the same content as `self`.
    pub open spec fn same_as(&self, other: &Self) -> bool
        decreases self,
    {
        self.name.same(&other.name)
        && self.closed.same(&other.closed)
        && self.shape.same_as(&other.shape)
    }

    /// A copy of this value.
    pub fn deep_copy(&self) -> (r: Self)
        ensures
            r.same_as(self),
        decreases self,
    {
        crate::actions::movement::Trajectory { name: self.name.copied(), closed: self.closed.copied(), shape: self.shape.deep_copy() }
    }
}

impl crate::geometry::Shape {
    /// Whether `other` holds the same content as `self`.
    pub open spec fn same_as(&self, other: &Self) -> bool
        decreases self,
    {
        (match (&self.polyline, &other.polyline) { (Some(x), Some(y)) => x.same_as(y), (None, None) => true, _ => false })
        && (match (&self.clothoid, &other.clothoid) { (Some(x), Some(y)) => x.same_as(y), (None, None) => true, _ => false })
        && (match (&self.clothoid_spline, &other.clothoid_spline) { (Some(x), Some(y)) => x.same_as(y), (None, None) => true, _ => false })
        && (match (&self.nurbs, &other.nurbs) { (Some(x), Some(y)) => x.same_as(y), (None, None) => true, _ => false })
    }

    /// A copy of this value.
    pub fn deep_copy(&self) -> (r: Self)
        ensures
            r.same_as(self),
        decreases self,
    {
        crate::geometry::Shape { polyline: match &self.polyline { Some(x) => Some(x.deep_copy()), None => None }, clothoid: match &self.clothoid { Some(x) => Some(x.deep_copy()), None => None }, clothoid_spline: match &self.clothoid_spline { Some(x) => Some(x.deep_copy()), None => None }, nurbs: match &self.nurbs { Some(x) => Some(x.deep_copy()), None => None } }
    }
}

impl crate::geometry::Polyline {
    /// Whether `other` holds the same content as `self`.
    pub open spec fn same_as(&self, other: &Self) -> bool
        decreases self,
    {
        (self.vertices@.len() == other.vertices@.len() && forall|i: int| 0 <= i < self.vertices@.len() ==> self.vertices@[i].same_as(#[trigger] &other.vertices@[i]))
    }

    /// A copy of this value.
    pub fn deep_copy(&self) -> (r: Self)
        ensures
            r.same_as(self),
        decreases self,
    {
        let mut vertices: Vec<crate::geometry::Vertex> = Vec::new();
        let mut i: usize = 0;
        while i < self.vertices.len()
            invariant
                i <= self.vertices@.len(),
                vertices@.len() == i,
                forall|j: int| 0 <= j < i ==> #[trigger] vertices@[j].same_as(&self.vertices@[j]),
            decreases self.vertices@.len() - i,
        {
            vertices.push(self.vertices[i].deep_copy());
            i = i + 1;
        }
        let r = crate::geometry::Polyline { vertices };
        assert forall|j: int| 0 <= j < r.vertices@.len() implies r.vertices@[j].same_as(&self.vertices@[j]) by {
            assert(vertices@[j].same_as(&self.vertices@[j]));
        }
        r
    }
}

impl crate::geometry::Vertex {
    /// Whether `other` holds the same content as `self`.
    pub open spec fn same_as(&self, other: &Self) -> bool
        decreases self,
    {
        self.time.same(&other.time)
        && self.position.same_as(&other.position)
    }

    /// A copy of this value.
    pub fn deep_copy(&self) -> (r: Self)
        ensures
            r.same_as(self),
        decreases self,
    {
        crate::geometry::Vertex { time: self.time.copied(), position: self.position.deep_copy() }
    }
}

impl crate::positions::trajectory::Clothoid {
    /// Whether `other` holds the same content as `self`.
    pub open spec fn same_as(&self, other: &Self) -> bool
        decreases self,
    {
        self.curvature.same(&other.curvature)
        && self.curvature_dot.same(&other.curvature_dot)
        && self.curvature_prime.same(&other.curvature_prime)
        && self.length.same(&other.length)
        && self.start_time.same(&other.start_time)
        && self.stop_time.same(&other.stop_time)
        && self.start_position.same_as(&other.start_position)
    }

    /// A copy of this value.
    pub fn deep_copy(&self) -> (r: Self)
        ensures
            r.same_as(self),
        decreases self,
    {
        crate::positions::trajectory::Clothoid { curvature: self.curvature.copied(), curvature_dot: self.curvature_dot.copied(), curvature_prime: self.curvature_prime.copied(), length: self.length.copied(), start_time: self.start_time.copied(), stop_time: self.stop_time.copied(), start_position: self.start_position.deep_copy() }
    }
}

impl crate::geometry::ClothoidSpline {
    /// Whether `other` holds the same content as `self`.
    pub open spec fn same_as(&self, other: &Self) -> bool
        decreases self,
    {
        (self.segments@.len() == other.segments@.len() && forall|i: int| 0 <= i < self.segments@.len() ==> self.segments@[i].same_as(#[trigger] &other.segments@[i]))
        && self.time_end.same(&other.time_end)
    }

    /// A copy of this value.
    pub fn deep_copy(&self) -> (r: Self)
        ensures
            r.same_as(self),
        decreases self,
    {
        let mut segments: Vec<crate::geometry::ClothoidSplineSegment> = Vec::new();
        let mut i: usize = 0;
        while i < self.segments.len()
            invariant
                i <= self.segments@.len(),
                segments@.len() == i,
                forall|j: int| 0 <= j < i ==> #[trigger] segments@[j].same_as(&self.segments@[j]),
            decreases self.segments@.len() - i,
        {
            segments.push(self.segments[i].deep_copy());
            i = i + 1;
        }
        let r = crate::geometry::ClothoidSpline { segments, time_end: self.time_end.copied() };
        assert forall|j: int| 0 <= j < r.segments@.len() implies r.segments@[j].same_as(&self.segments@[j]) by {
            assert(segments@[j].same_as(&self.segments@[j]));
        }
        r
    }
}

impl crate::geometry::ClothoidSplineSegment {
    /// Whether `other` holds the same content as `self`.
    pub open spec fn same_as(&self, other: &Self) -> bool
        decreases self,
    {
        self.curvature_start.same(&other.curvature_start)
        && self.curvature_end.same(&other.curvature_end)
        && self.length.same(&other.length)
        && self.h_offset.same(&other.h_offset)
        && self.time_start.same(&other.time_start)
        && (match (&self.position_start, &other.position_start) { (Some(x), Some(y)) => x.same_as(y), (None, None) => true, _ => false })
    }

    /// A copy of this value.
    pub fn deep_copy(&self) -> (r: Self)
        ensures
            r.same_as(self),
        decreases self,
    {
        crate::geometry::ClothoidSplineSegment { curvature_start: self.curvature_start.copied(), curvature_end: self.curvature_end.copied(), length: self.length.copied(), h_offset: self.h_offset.copied(), time_start: self.time_start.copied(), position_start: match &self.position_start { Some(x) => Some(x.deep_copy()), None => None } }
    }
}

impl crate::geometry::Nurbs {
    /// Whether `other` holds the same content as `self`.
    pub open spec fn same_as(&self, other: &Self) -> bool
        decreases self,
    {
        self.order.same(&other.order)
        && (self.control_points@.len() == other.control_points@.len() && forall|i: int| 0 <= i < self.control_points@.len() ==> self.control_points@[i].same_as(#[trigger] &other.control_points@[i]))
        && self.knots.same(&other.knots)
    }

    /// A copy of this value.
    pub fn deep_copy(&self) -> (r: Self)
        ensures
            r.same_as(self),
        decreases self,
    {
        let mut control_points: Vec<crate::geometry::ControlPoint> = Vec::new();
        let mut i: usize = 0;
        while i < self.control_points.len()
            invariant
                i <= self.control_points@.len(),
                control_points@.len() == i,
                forall|j: int| 0 <= j < i ==> #[trigger] control_points@[j].same_as(&self.control_points@[j]),
            decreases self.control_points@.len() - i,
        {
            control_points.push(self.control_points[i].deep_copy());
            i = i + 1;
        }
        let r = crate::geometry::Nurbs { order: self.order.copied(), control_points, knots: self.knots.copied() };
        assert forall|j: int| 0 <= j < r.control_points@.len() implies r.control_points@[j].same_as(&self.control_points@[j]) by {
            assert(control_points@[j].same_as(&self.control_points@[j]));
        }
        r
    }
}

impl crate::geometry::ControlPoint {
    /// Whether `other` holds the same content as `self`.
    pub open spec fn same_as(&self, other: &Self) -> bool
        decreases self,
    {
        self.position.same_as(&other.position)
        && self.time.same(&other.time)
        && self.weight.same(&other.weight)
    }

    /// A copy of this value.
    pub fn deep_copy(&self) -> (r: Self)
        ensures
            r.same_as(self),
        decreases self,
    {
        crate::geometry::ControlPoint { position: self.position.deep_copy(), time: self.time.copied(), weight: self.weight.copied() }
    }
}

impl crate::positions::route::RoutePosition {
    /// Whether `other` holds the same content as `self`.
    pub open spec fn same_as(&self, other: &Self) -> bool
        decreases self,
    {
        self.route_ref.same_as(&other.route_ref)
        && self.orientation.same(&other.orientation)
        && self.in_route_position.same(&other.in_route_position)
    }

    /// A copy of this value.
    pub fn deep_copy(&self) -> (r: Self)
        ensures
            r.same_as(self),
        decreases self,
    {
        crate::positions::route::RoutePosition { route_ref: self.route_ref.deep_copy(), orientation: self.orientation.copied(), in_route_position: self.in_route_position.copied() }
    }
}

impl crate::positions::route::RouteRefElement {
    /// Whether `other` holds the same content as `self`.
    pub open spec fn same_as(&self, other: &Self) -> bool
        decreases self,
    {
        self.route_ref.same_as(&other.route_ref)
    }

    /// A copy of this value.
    pub fn deep_copy(&self) -> (r: Self)
        ensures
            r.same_as(self),
        decreases self,
    {
        crate::positions::route::RouteRefElement { route_ref: self.route_ref.deep_copy() }
    }
}

impl crate::routing::RouteRef {
    /// Whether `other` holds the same content as `self`.
    pub open spec fn same_as(&self, other: &Self) -> bool
        decreases self,
    {
        match (self, other) {
            (crate::routing::RouteRef::Direct(a), crate::routing::RouteRef::Direct(b)) => a.same_as(b),
            (crate::routing::RouteRef::Catalog(a), crate::routing::RouteRef::Catalog(b)) => a.same(b),
            _ => false,
        }
    }

    /// A copy of this value.
    pub fn deep_copy(&self) -> (r: Self)
        ensures
            r.same_as(self),
        decreases self,
    {
        match self {
            crate::routing::RouteRef::Direct(a) => crate::routing::RouteRef::Direct(a.deep_copy()),
            crate::routing::RouteRef::Catalog(a) => crate::routing::RouteRef::Catalog(a.copied()),
        }
    }
}

impl crate::routing::Route {
    /// Whether `other` holds the same content as `self`.
    pub open spec fn same_as(&self, other: &Self) -> bool
        decreases self,
    {
        self.name.same(&other.name)
        && self.closed.same(&other.closed)
        && self.parameter_declarations.same(&other.parameter_declarations)
        && (self.waypoints@.len() == other.waypoints@.len() && forall|i: int| 0 <= i < self.waypoints@.len() ==> self.waypoints@[i].same_as(#[trigger] &other.waypoints@[i]))
    }

    /// A copy of this value.
    pub fn deep_copy(&self) -> (r: Self)
        ensures
            r.same_as(self),
        decreases self,
    {
        let mut waypoints: Vec<crate::routing::Waypoint> = Vec::new();
        let mut i: usize = 0;
        while i < self.waypoints.len()
            invariant
                i <= self.waypoints@.len(),
                waypoints@.len() == i,
                forall|j: int| 0 <= j < i ==> #[trigger] waypoints@[j].same_as(&self.waypoints@[j]),
            decreases self.waypoints@.len() - i,
        {
            waypoints.push(self.waypoints[i].deep_copy());
            i = i + 1;
        }
        let r = crate::routing::Route { name: self.name.copied(), closed: self.closed.copied(), parameter_declarations: self.parameter_declarations.copied(), waypoints };
        assert forall|j: int| 0 <= j < r.waypoints@.len() implies r.waypoints@[j].same_as(&self.waypoints@[j]) by {
            assert(waypoints@[j].same_as(&self.waypoints@[j]));
        }
        r
    }
}

impl crate::routing::Waypoint {
    /// Whether `other` holds the same content as `self`.
    pub open spec fn same_as(&self, other: &Self) -> bool
        decreases self,
    {
        self.position.same_as(&other.position)
        && self.route_strategy.same(&other.route_strategy)
    }

    /// A copy of this value.
    pub fn deep_copy(&self) -> (r: Self)
        ensures
            r.same_as(self),
        decreases self,
    {
        crate::routing::Waypoint { position: self.position.deep_copy(), route_strategy: self.route_strategy.copied() }
    }
}

impl Duplicate for crate::positions::RelativeWorldPosition {
    open spec fn same(&self, other: &Self) -> bool {
        self.entity_ref.same(&other.entity_ref)
        && self.dx.same(&other.dx)
        && self.dy.same(&other.dy)
        && self.dz.same(&other.dz)
        && self.orientation.same(&other.orientation)
    }

    fn copied(&self) -> (r: Self) {
        crate::positions::RelativeWorldPosition { entity_ref: self.entity_ref.copied(), dx: self.dx.copied(), dy: self.dy.copied(), dz: self.dz.copied(), orientation: self.orientation.copied() }
    }
}

impl Duplicate for crate::positions::world::WorldPosition {
    open spec fn same(&self, other: &Self) -> bool {
        self.x.same(&other.x)
        && self.y.same(&other.y)
        && self.z.same(&other.z)
        && self.h.same(&other.h)
        && self.p.same(&other.p)
        && self.r.same(&other.r)
    }

    fn copied(&self) -> (r: Self) {
        crate::positions::world::WorldPosition { x: self.x.copied(), y: self.y.copied(), z: self.z.copied(), h: self.h.copied(), p: self.p.copied(), r: self.r.copied() }
    }
}

impl Duplicate for crate::positions::world::GeographicPosition {
    open spec fn same(&self, other: &Self) -> bool {
        self.latitude.same(&other.latitude)
        && self.longitude.same(&other.longitude)
        && self.height.same(&other.height)
        && self.latitude_deg.same(&other.latitude_deg)
        && self.longitude_deg.same(&other.longitude_deg)
        && self.altitude.same(&other.altitude)
        && self.vertical_road_selection.same(&other.vertical_road_selection)
        && self.orientation.same(&other.orientation)
    }

    fn copied(&self) -> (r: Self) {
        crate::positions::world::GeographicPosition { latitude: self.latitude.copied(), longitude: self.longitude.copied(), height: self.height.copied(), latitude_deg: self.latitude_deg.copied(), longitude_deg: self.longitude_deg.copied(), altitude: self.altitude.copied(), vertical_road_selection: self.vertical_road_selection.copied(), orientation: self.orientation.copied() }
    }
}

impl Duplicate for crate::positions::road::Orientation {
    open spec fn same(&self, other: &Self) -> bool {
        self.h.same(&other.h)
        && self.p.same(&other.p)
        && self.r.same(&other.r)
        && self.reference_context.same(&other.reference_context)
    }

    fn copied(&self) -> (r: Self) {
        crate::positions::road::Orientation { h: self.h.copied(), p: self.p.copied(), r: self.r.copied(), reference_context: self.reference_context.copied() }
    }
}

impl Duplicate for crate::positions::road::RoadPosition {
    open spec fn same(&self, other: &Self) -> bool {
        self.road_id.same(&other.road_id)
        && self.s.same(&other.s)
        && self.t.same(&other.t)
        && self.orientation.same(&other.orientation)
    }

    fn copied(&self) -> (r: Self) {
        crate::positions::road::RoadPosition { road_id: self.road_id.copied(), s: self.s.copied(), t: self.t.copied(), orientation: self.orientation.copied() }
    }
}

impl Duplicate for crate::positions::road::RelativeRoadPosition {
    open spec fn same(&self, other: &Self) -> bool {
        self.entity_ref.same(&other.entity_ref)
        && self.ds.same(&other.ds)
        && self.dt.same(&other.dt)
        && self.orientation.same(&other.orientation)
    }

    fn copied(&self) -> (r: Self) {
        crate::positions::road::RelativeRoadPosition { entity_ref: self.entity_ref.copied(), ds: self.ds.copied(), dt: self.dt.copied(), orientation: self.orientation.copied() }
    }
}

impl Duplicate for crate::positions::road::LanePosition {
    open spec fn same(&self, other: &Self) -> bool {
        self.road_id.same(&other.road_id)
        && self.lane_id.same(&other.lane_id)
        && self.offset.same(&other.offset)
        && self.s.same(&other.s)
        && self.orientation.same(&other.orientation)
    }

    fn copied(&self) -> (r: Self) {
        crate::positions::road::LanePosition { road_id: self.road_id.copied(), lane_id: self.lane_id.copied(), offset: self.offset.copied(), s: self.s.copied(), orientation: self.orientation.copied() }
    }
}

impl Duplicate for crate::positions::road::RelativeLanePosition {
    open spec fn same(&self, other: &Self) -> bool {
        self.entity_ref.same(&other.entity_ref)
        && self.d_lane.same(&other.d_lane)
        && self.ds.same(&other.ds)
        && self.ds_lane.same(&other.ds_lane)
        && self.offset.same(&other.offset)
        && self.orientation.same(&other.orientation)
    }

    fn copied(&self) -> (r: Self) {
        crate::positions::road::RelativeLanePosition { entity_ref: self.entity_ref.copied(), d_lane: self.d_lane.copied(), ds: self.ds.copied(), ds_lane: self.ds_lane.copied(), offset: self.offset.copied(), orientation: self.orientation.copied() }
    }
}

impl Duplicate for crate::positions::relative::RelativeObjectPosition {
    open spec fn same(&self, other: &Self) -> bool {
        self.entity_ref.same(&other.entity_ref)
        && self.dx.same(&other.dx)
        && self.dy.same(&other.dy)
        && self.dz.same(&other.dz)
        && self.orientation.same(&other.orientation)
    }

    fn copied(&self) -> (r: Self) {
        crate::positions::relative::RelativeObjectPosition { entity_ref: self.entity_ref.copied(), dx: self.dx.copied(), dy: self.dy.copied(), dz: self.dz.copied(), orientation: self.orientation.copied() }
    }
}

impl Duplicate for crate::positions::route::InRoutePosition {
    open spec fn same(&self, other: &Self) -> bool {
        self.from_current_entity.same(&other.from_current_entity)
        && self.from_road_coordinates.same(&other.from_road_coordinates)
        && self.from_lane_coordinates.same(&other.from_lane_coordinates)
    }

    fn copied(&self) -> (r: Self) {
        crate::positions::route::InRoutePosition { from_current_entity: self.from_current_entity.copied(), from_road_coordinates: self.from_road_coordinates.copied(), from_lane_coordinates: self.from_lane_coordinates.copied() }
    }
}

impl Duplicate for crate::positions::route::PositionOfCurrentEntity {
    open spec fn same(&self, other: &Self) -> bool {
        self.entity_ref.same(&other.entity_ref)
    }

    fn copied(&self) -> (r: Self) {
        crate::positions::route::PositionOfCurrentEntity { entity_ref: self.entity_ref.copied() }
    }
}

impl Duplicate for crate::positions::route::PositionInRoadCoordinates {
    open spec fn same(&self, other: &Self) -> bool {
        self.path_s.same(&other.path_s)
        && self.t.same(&other.t)
    }

    fn copied(&self) -> (r: Self) {
        crate::positions::route::PositionInRoadCoordinates { path_s: self.path_s.copied(), t: self.t.copied() }
    }
}

impl Duplicate for crate::positions::route::PositionInLaneCoordinates {
    open spec fn same(&self, other: &Self) -> bool {
        self.lane_id.same(&other.lane_id)
        && self.lane_offset.same(&other.lane_offset)
        && self.path_s.same(&other.path_s)
    }

    fn copied(&self) -> (r: Self) {
        crate::positions::route::PositionInLaneCoordinates { lane_id: self.lane_id.copied(), lane_offset: self.lane_offset.copied(), path_s: self.path_s.copied() }
    }
}

impl Duplicate for crate::geometry::Knot {
    open spec fn same(&self, other: &Self) -> bool {
        self.value.same(&other.value)
    }

    fn copied(&self) -> (r: Self) {
        crate::geometry::Knot { value: self.value.copied() }
    }
}

impl Duplicate for crate::routing::ParameterDeclarations {
    open spec fn same(&self, other: &Self) -> bool {
        self.parameter_declarations.same(&other.parameter_declarations)
    }

    fn copied(&self) -> (r: Self) {
        crate::routing::ParameterDeclarations { parameter_declarations: self.parameter_declarations.copied() }
    }
}

impl Duplicate for crate::routing::ParameterDeclaration {
    open spec fn same(&self, other: &Self) -> bool {
        self.name.same(&other.name)
        && self.parameter_type.same(&other.parameter_type)
        && self.value.same(&other.value)
        && self.constraint_groups.same(&other.constraint_groups)
    }

    fn copied(&self) -> (r: Self) {
        crate::routing::ParameterDeclaration { name: self.name.copied(), parameter_type: self.parameter_type.copied(), value: self.value.copied(), constraint_groups: self.constraint_groups.copied() }
    }
}

impl Duplicate for crate::references::CatalogReference {
    open spec fn same(&self, other: &Self) -> bool {
        self.catalog_name.same(&other.catalog_name)
        && self.entry_name.same(&other.entry_name)
        && self.parameter_assignments.same(&other.parameter_assignments)
    }

    fn copied(&self) -> (r: Self) {
        crate::references::CatalogReference { catalog_name: self.catalog_name.copied(), entry_name: self.entry_name.copied(), parameter_assignments: self.parameter_assignments.copied() }
    }
}

impl Duplicate for crate::references::ParameterAssignments {
    open spec fn same(&self, other: &Self) -> bool {
        self.parameter_assignments.same(&other.parameter_assignments)
    }

    fn copied(&self) -> (r: Self) {
        crate::references::ParameterAssignments { parameter_assignments: self.parameter_assignments.copied() }
    }
}

impl Duplicate for crate::references::ParameterAssignment {
    open spec fn same(&self, other: &Self) -> bool {
        self.parameter_ref.same(&other.parameter_ref)
        && self.value.same(&other.value)
    }

    fn copied(&self) -> (r: Self) {
        crate::references::ParameterAssignment { parameter_ref: self.parameter_ref.copied(), value: self.value.copied() }
    }
}

impl Duplicate for crate::geometry::BoundingBox {
    open spec fn same(&self, other: &Self) -> bool {
        self.center.same(&other.center)
        && self.dimensions.same(&other.dimensions)
    }

    fn copied(&self) -> (r: Self) {
        crate::geometry::BoundingBox { center: self.center.copied(), dimensions: self.dimensions.copied() }
    }
}

impl Duplicate for crate::geometry::Center {
    open spec fn same(&self, other: &Self) -> bool {
        self.x.same(&other.x)
        && self.y.same(&other.y)
        && self.z.same(&other.z)
    }

    fn copied(&self) -> (r: Self) {
        crate::geometry::Center { x: self.x.copied(), y: self.y.copied(), z: self.z.copied() }
    }
}

impl Duplicate for crate::geometry::Dimensions {
    open spec fn same(&self, other: &Self) -> bool {
        self.width.same(&other.width)
        && self.length.same(&other.length)
        && self.height.same(&other.height)
    }

    fn copied(&self) -> (r: Self) {
        crate::geometry::Dimensions { width: self.width.copied(), length: self.length.copied(), height: self.height.copied() }
    }
}

impl Duplicate for crate::environment::Wind {
    open spec fn same(&self, other: &Self) -> bool {
        self.direction.same(&other.direction)
        && self.speed.same(&other.speed)
    }

    fn copied(&self) -> (r: Self) {
        crate::environment::Wind { direction: self.direction.copied(), speed: self.speed.copied() }
    }
}

impl Duplicate for crate::environment::DomeImage {
    open spec fn same(&self, other: &Self) -> bool {
        self.dome_file.same(&other.dome_file)
        && self.azimuth_offset.same(&other.azimuth_offset)
    }

    fn copied(&self) -> (r: Self) {
        crate::environment::DomeImage { dome_file: self.dome_file.copied(), azimuth_offset: self.azimuth_offset.copied() }
    }
}

impl Duplicate for crate::entities::vehicle::File {
    open spec fn same(&self, other: &Self) -> bool {
        self.filepath.same(&other.filepath)
    }

    fn copied(&self) -> (r: Self) {
        crate::entities::vehicle::File { filepath: self.filepath.copied() }
    }
}

impl Duplicate for crate::entities::vehicle::Properties {
    open spec fn same(&self, other: &Self) -> bool {
        self.properties.same(&other.properties)
        && self.files.same(&other.files)
        && self.custom_content.same(&other.custom_content)
    }

    fn copied(&self) -> (r: Self) {
        crate::entities::vehicle::Properties { properties: self.properties.copied(), files: self.files.copied(), custom_content: self.custom_content.copied() }
    }
}

impl Duplicate for crate::entities::vehicle::Property {
    open spec fn same(&self, other: &Self) -> bool {
        self.name.same(&other.name)
        && self.value.same(&other.value)
    }

    fn copied(&self) -> (r: Self) {
        crate::entities::vehicle::Property { name: self.name.copied(), value: self.value.copied() }
    }
}

impl Duplicate for crate::entities::vehicle::CustomContent {
    open spec fn same(&self, other: &Self) -> bool {
        self.content.same(&other.content)
    }

    fn copied(&self) -> (r: Self) {
        crate::entities::vehicle::CustomContent { content: self.content.copied() }
    }
}

impl Duplicate for crate::basic::ParameterDeclarations {
    open spec fn same(&self, other: &Self) -> bool {
        self.parameter_declarations.same(&other.parameter_declarations)
    }

    fn copied(&self) -> (r: Self) {
        crate::basic::ParameterDeclarations { parameter_declarations: self.parameter_declarations.copied() }
    }
}

impl Duplicate for crate::basic::ParameterDeclaration {
    open spec fn same(&self, other: &Self) -> bool {
        self.name.same(&other.name)
        && self.parameter_type.same(&other.parameter_type)
        && self.value.same(&other.value)
        && self.constraint_groups.same(&other.constraint_groups)
    }

    fn copied(&self) -> (r: Self) {
        crate::basic::ParameterDeclaration { name: self.name.copied(), parameter_type: self.parameter_type.copied(), value: self.value.copied(), constraint_groups: self.constraint_groups.copied() }
    }
}

impl Duplicate for crate::basic::ValueConstraintGroup {
    open spec fn same(&self, other: &Self) -> bool {
        self.value_constraints.same(&other.value_constraints)
    }

    fn copied(&self) -> (r: Self) {
        crate::basic::ValueConstraintGroup { value_constraints: self.value_constraints.copied() }
    }
}

impl Duplicate for crate::basic::ValueConstraint {
    open spec fn same(&self, other: &Self) -> bool {
        self.rule.same(&other.rule)
        && self.value.same(&other.value)
    }

    fn copied(&self) -> (r: Self) {
        crate::basic::ValueConstraint { rule: self.rule.copied(), value: self.value.copied() }
    }
}

impl Duplicate for crate::entities::pedestrian::Pedestrian {
    open spec fn same(&self, other: &Self) -> bool {
        self.name.same(&other.name)
        && self.pedestrian_category.same(&other.pedestrian_category)
        && self.mass.same(&other.mass)
        && self.role.same(&other.role)
        && self.model3d.same(&other.model3d)
        && self.bounding_box.same(&other.bounding_box)
        && self.properties.same(&other.properties)
        && self.parameter_declarations.same(&other.parameter_declarations)
    }

    fn copied(&self) -> (r: Self) {
        crate::entities::pedestrian::Pedestrian { name: self.name.copied(), pedestrian_category: self.pedestrian_category.copied(), mass: self.mass.copied(), role: self.role.copied(), model3d: self.model3d.copied(), bounding_box: self.bounding_box.copied(), properties: self.properties.copied(), parameter_declarations: self.parameter_declarations.copied() }
    }
}

impl Duplicate for crate::entities::misc_object::MiscObject {
    open spec fn same(&self, other: &Self) -> bool {
        self.mass.same(&other.mass)
        && self.misc_object_category.same(&other.misc_object_category)
        && self.name.same(&other.name)
        && self.model3d.same(&other.model3d)
        && self.parameter_declarations.same(&other.parameter_declarations)
        && self.bounding_box.same(&other.bounding_box)
        && self.properties.same(&other.properties)
    }

    fn copied(&self) -> (r: Self) {
        crate::entities::misc_object::MiscObject { mass: self.mass.copied(), misc_object_category: self.misc_object_category.copied(), name: self.name.copied(), model3d: self.model3d.copied(), parameter_declarations: self.parameter_declarations.copied(), bounding_box: self.bounding_box.copied(), properties: self.properties.copied() }
    }
}

impl Duplicate for crate::entities::selection::ExternalObjectReference {
    open spec fn same(&self, other: &Self) -> bool {
        self.name.same(&other.name)
    }

    fn copied(&self) -> (r: Self) {
        crate::entities::selection::ExternalObjectReference { name: self.name.copied() }
    }
}

impl Duplicate for crate::controllers::ObjectController {
    open spec fn same(&self, other: &Self) -> bool {
        self.name.same(&other.name)
        && self.controller.same(&other.controller)
        && self.catalog_reference.same(&other.catalog_reference)
    }

    fn copied(&self) -> (r: Self) {
        crate::controllers::ObjectController { name: self.name.copied(), controller: self.controller.copied(), catalog_reference: self.catalog_reference.copied() }
    }
}

impl Duplicate for crate::controllers::Controller {
    open spec fn same(&self, other: &Self) -> bool {
        self.name.same(&other.name)
        && self.controller_type.same(&other.controller_type)
        && self.parameter_declarations.same(&other.parameter_declarations)
        && self.properties.same(&other.properties)
    }

    fn copied(&self) -> (r: Self) {
        crate::controllers::Controller { name: self.name.copied(), controller_type: self.controller_type.copied(), parameter_declarations: self.parameter_declarations.copied(), properties: self.properties.copied() }
    }
}

impl Duplicate for crate::entities::ScenarioEntityReference {
    open spec fn same(&self, other: &Self) -> bool {
        match (self, other) {
            (crate::entities::ScenarioEntityReference::Vehicle(a), crate::entities::ScenarioEntityReference::Vehicle(b)) => a.same(b),
            (crate::entities::ScenarioEntityReference::Pedestrian(a), crate::entities::ScenarioEntityReference::Pedestrian(b)) => a.same(b),
            _ => false,
        }
    }

    fn copied(&self) -> (r: Self) {
        match self {
            crate::entities::ScenarioEntityReference::Vehicle(a) => crate::entities::ScenarioEntityReference::Vehicle(a.copied()),
            crate::entities::ScenarioEntityReference::Pedestrian(a) => crate::entities::ScenarioEntityReference::Pedestrian(a.copied()),
        }
    }
}

impl Duplicate for crate::entities::vehicle::Performance {
    open spec fn same(&self, other: &Self) -> bool {
        self.max_speed.same(&other.max_speed)
        && self.max_acceleration.same(&other.max_acceleration)
        && self.max_acceleration_rate.same(&other.max_acceleration_rate)
        && self.max_deceleration.same(&other.max_deceleration)
        && self.max_deceleration_rate.same(&other.max_deceleration_rate)
    }

    fn copied(&self) -> (r: Self) {
        crate::entities::vehicle::Performance { max_speed: self.max_speed.copied(), max_acceleration: self.max_acceleration.copied(), max_acceleration_rate: self.max_acceleration_rate.copied(), max_deceleration: self.max_deceleration.copied(), max_deceleration_rate: self.max_deceleration_rate.copied() }
    }
}

impl Duplicate for crate::entities::axles::Axles {
    open spec fn same(&self, other: &Self) -> bool {
        self.front_axle.same(&other.front_axle)
        && self.rear_axle.same(&other.rear_axle)
        && self.additional_axles.same(&other.additional_axles)
    }

    fn copied(&self) -> (r: Self) {
        crate::entities::axles::Axles { front_axle: self.front_axle.copied(), rear_axle: self.rear_axle.copied(), additional_axles: self.additional_axles.copied() }
    }
}

impl Duplicate for crate::entities::axles::Axle {
    open spec fn same(&self, other: &Self) -> bool {
        self.max_steering.same(&other.max_steering)
        && self.wheel_diameter.same(&other.wheel_diameter)
        && self.track_width.same(&other.track_width)
        && self.position_x.same(&other.position_x)
        && self.position_z.same(&other.position_z)
    }

    fn copied(&self) -> (r: Self) {
        crate::entities::axles::Axle { max_steering: self.max_steering.copied(), wheel_diameter: self.wheel_diameter.copied(), track_width: self.track_width.copied(), position_x: self.position_x.copied(), position_z: self.position_z.copied() }
    }
}

impl Duplicate for crate::entities::vehicle::TrailerHitch {
    open spec fn same(&self, other: &Self) -> bool {
        self.dx.same(&other.dx)
        && self.dz.same(&other.dz)
    }

    fn copied(&self) -> (r: Self) {
        crate::entities::vehicle::TrailerHitch { dx: self.dx.copied(), dz: self.dz.copied() }
    }
}

impl Duplicate for crate::entities::vehicle::TrailerCoupler {
    open spec fn same(&self, other: &Self) -> bool {
        self.dx.same(&other.dx)
        && self.dz.same(&other.dz)
    }

    fn copied(&self) -> (r: Self) {
        crate::entities::vehicle::TrailerCoupler { dx: self.dx.copied(), dz: self.dz.copied() }
    }
}

impl Duplicate for crate::references::EntityRef {
    open spec fn same(&self, other: &Self) -> bool {
        self.entity_ref.same(&other.entity_ref)
    }

    fn copied(&self) -> (r: Self) {
        crate::references::EntityRef { entity_ref: self.entity_ref.copied() }
    }
}

} // verus!
