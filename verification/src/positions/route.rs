//! Positions along routes.
use vstd::prelude::*;
use crate::basic::{is_real_literal, is_str_literal, real_literal, Double, OSString, Value};
use crate::positions::road::Orientation;
use crate::routing::RouteRef;

verus! {

/// The position of the entity that the enclosing action acts on.
#[derive(Debug, Clone, PartialEq)]
pub struct PositionOfCurrentEntity {
    pub entity_ref: OSString,
}

/// A position along a route in road coordinates.
#[derive(Debug, Clone, PartialEq)]
pub struct PositionInRoadCoordinates {
    pub path_s: Double,
    pub t: Double,
}

/// A position along a route in lane coordinates.
#[derive(Debug, Clone, PartialEq)]
pub struct PositionInLaneCoordinates {
    pub lane_id: OSString,
    pub lane_offset: Option<Double>,
    pub path_s: Double,
}

/// A position within a route: one of its three branches is meant to be chosen.
#[derive(Debug, Clone, PartialEq)]
pub struct InRoutePosition {
    pub from_current_entity: Option<PositionOfCurrentEntity>,
    pub from_road_coordinates: Option<PositionInRoadCoordinates>,
    pub from_lane_coordinates: Option<PositionInLaneCoordinates>,
}

/// The route that a route position refers to.
#[derive(Debug, Clone, PartialEq)]
pub struct RouteRefElement {
    pub route_ref: RouteRef,
}

/// A position given relative to a route.
#[derive(Debug, Clone, PartialEq)]
pub struct RoutePosition {
    pub route_ref: RouteRefElement,
    pub orientation: Option<Orientation>,
    pub in_route_position: InRoutePosition,
}

impl Default for PositionOfCurrentEntity {
    /// The position of the entity `DefaultEntity`.
    fn default() -> (r: PositionOfCurrentEntity)
        ensures
            is_str_literal(r.entity_ref, "DefaultEntity"@),
    {
        PositionOfCurrentEntity { entity_ref: Value::Literal("DefaultEntity".to_owned()) }
    }
}

impl Default for PositionInRoadCoordinates {
    /// The start of the route, on its reference line.
    fn default() -> (r: PositionInRoadCoordinates)
        ensures
            is_real_literal(r.path_s, "0.0"@),
            is_real_literal(r.t, "0.0"@),
    {
        PositionInRoadCoordinates { path_s: real_literal("0.0"), t: real_literal("0.0") }
    }
}

impl Default for PositionInLaneCoordinates {
    /// The start of the route in lane `-1`.
    fn default() -> (r: PositionInLaneCoordinates)
        ensures
            is_str_literal(r.lane_id, "-1"@),
            r.lane_offset is None,
            is_real_literal(r.path_s, "0.0"@),
    {
        PositionInLaneCoordinates {
            lane_id: Value::Literal("-1".to_owned()),
            lane_offset: None,
            path_s: real_literal("0.0"),
        }
    }
}

impl Default for InRoutePosition {
    /// No branch chosen.
    fn default() -> (r: InRoutePosition)
        ensures
            r.from_current_entity is None,
            r.from_road_coordinates is None,
            r.from_lane_coordinates is None,
    {
        InRoutePosition {
            from_current_entity: None,
            from_road_coordinates: None,
            from_lane_coordinates: None,
        }
    }
}

impl InRoutePosition {
    /// The position of the entity `entity_ref`.
    pub fn from_current_entity(entity_ref: String) -> (r: InRoutePosition)
        ensures
            r == (InRoutePosition {
                from_current_entity: Some(PositionOfCurrentEntity { entity_ref: Value::Literal(entity_ref) }),
                from_road_coordinates: None,
                from_lane_coordinates: None,
            }),
    {
        InRoutePosition {
            from_current_entity: Some(PositionOfCurrentEntity { entity_ref: Value::Literal(entity_ref) }),
            from_road_coordinates: None,
            from_lane_coordinates: None,
        }
    }

    /// The position `path_s`, `t` in road coordinates.
    pub fn from_road_coordinates(path_s: Double, t: Double) -> (r: InRoutePosition)
        ensures
            r == (InRoutePosition {
                from_current_entity: None,
                from_road_coordinates: Some(PositionInRoadCoordinates { path_s, t }),
                from_lane_coordinates: None,
            }),
    {
        InRoutePosition {
            from_current_entity: None,
            from_road_coordinates: Some(PositionInRoadCoordinates { path_s, t }),
            from_lane_coordinates: None,
        }
    }

    /// The position `path_s` in lane `lane_id`, offset by `lane_offset`.
    pub fn from_lane_coordinates(lane_id: OSString, path_s: Double, lane_offset: Option<Double>) -> (r: InRoutePosition)
        ensures
            r == (InRoutePosition {
                from_current_entity: None,
                from_road_coordinates: None,
                from_lane_coordinates: Some(PositionInLaneCoordinates { lane_id, lane_offset, path_s }),
            }),
    {
        InRoutePosition {
            from_current_entity: None,
            from_road_coordinates: None,
            from_lane_coordinates: Some(PositionInLaneCoordinates { lane_id, lane_offset, path_s }),
        }
    }
}

impl RoutePosition {
    /// The position `in_route_position` on the route `route_ref`.
    pub fn new(route_ref: RouteRef, in_route_position: InRoutePosition) -> (r: RoutePosition)
        ensures
            r == (RoutePosition {
                route_ref: RouteRefElement { route_ref },
                orientation: None,
                in_route_position,
            }),
    {
        RoutePosition { route_ref: RouteRefElement { route_ref }, orientation: None, in_route_position }
    }
}

} // verus!
