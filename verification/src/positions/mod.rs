//! Positions in the world, on roads, along routes and trajectories, and relative to
//! entities.
use vstd::prelude::*;
use crate::basic::{Double, OSString, Real, Value};

pub mod relative;
pub mod road;
pub mod route;
pub mod trajectory;
pub mod world;

use relative::RelativeObjectPosition;
use road::{LanePosition, Orientation, RelativeLanePosition, RelativeRoadPosition, RoadPosition};
use route::RoutePosition;
use trajectory::TrajectoryPosition;
use world::{GeographicPosition, WorldPosition};

verus! {

/// A position: exactly one of its branches is meant to be chosen.
#[derive(Debug, PartialEq)]
pub struct Position {
    pub world_position: Option<WorldPosition>,
    pub relative_world_position: Option<RelativeWorldPosition>,
    pub road_position: Option<RoadPosition>,
    pub relative_road_position: Option<RelativeRoadPosition>,
    pub lane_position: Option<LanePosition>,
    pub relative_lane_position: Option<RelativeLanePosition>,
    pub route_position: Option<RoutePosition>,
    pub trajectory_position: Option<TrajectoryPosition>,
    pub geographic_position: Option<GeographicPosition>,
    pub relative_object_position: Option<RelativeObjectPosition>,
}

/// A position given by its offset in world coordinates from an entity.
#[derive(Debug, Clone, PartialEq)]
pub struct RelativeWorldPosition {
    pub entity_ref: OSString,
    pub dx: Double,
    pub dy: Double,
    pub dz: Option<Double>,
    pub orientation: Option<Orientation>,
}

impl RelativeWorldPosition {
    /// The position `dx`, `dy` away from the entity `entity_ref`.
    pub fn new(entity_ref: &str, dx: Real, dy: Real) -> (r: RelativeWorldPosition)
        ensures
            r.entity_ref matches Value::Literal(n) && n@ == entity_ref@,
            r.dx == Value::Literal(dx),
            r.dy == Value::Literal(dy),
            r.dz is None,
            r.orientation is None,
    {
        RelativeWorldPosition {
            entity_ref: Value::Literal(entity_ref.to_owned()),
            dx: Value::Literal(dx),
            dy: Value::Literal(dy),
            dz: None,
            orientation: None,
        }
    }
}

impl Position {
    /// Whether no branch of `p` is chosen.
    pub open spec fn is_empty(p: Position) -> bool {
        &&& p.world_position is None
        &&& p.relative_world_position is None
        &&& p.road_position is None
        &&& p.relative_road_position is None
        &&& p.lane_position is None
        &&& p.relative_lane_position is None
        &&& p.route_position is None
        &&& p.trajectory_position is None
        &&& p.geographic_position is None
        &&& p.relative_object_position is None
    }

    /// A world position at the origin: `x` and `y` both `0.0`.
    pub fn world_origin() -> (r: Position)
        ensures
            r.world_position matches Some(w) && crate::basic::is_real_literal(w.x, "0.0"@)
                && crate::basic::is_real_literal(w.y, "0.0"@) && w.z is None && w.h is None
                && w.p is None && w.r is None,
            r.relative_world_position is None,
            r.road_position is None,
            r.relative_road_position is None,
            r.lane_position is None,
            r.relative_lane_position is None,
            r.route_position is None,
            r.trajectory_position is None,
            r.geographic_position is None,
            r.relative_object_position is None,
    {
        Position::world(WorldPosition::new(Real::new("0.0"), Real::new("0.0")))
    }

    /// A position with no branch chosen.
    pub fn empty() -> (r: Position)
        ensures
            Position::is_empty(r),
    {
        Position {
            world_position: None,
            relative_world_position: None,
            road_position: None,
            relative_road_position: None,
            lane_position: None,
            relative_lane_position: None,
            route_position: None,
            trajectory_position: None,
            geographic_position: None,
            relative_object_position: None,
        }
    }

    /// The world position `world_position`.
    pub fn world(world_position: WorldPosition) -> (r: Position)
        ensures
            r == (Position { world_position: Some(world_position), ..Position::empty_spec() }),
    {
        Position { world_position: Some(world_position), ..Position::empty() }
    }

    /// The relative road position `relative_road_position`.
    pub fn relative_road(relative_road_position: RelativeRoadPosition) -> (r: Position)
        ensures
            r == (Position {
                relative_road_position: Some(relative_road_position),
                ..Position::empty_spec()
            }),
    {
        Position { relative_road_position: Some(relative_road_position), ..Position::empty() }
    }

    /// The relative lane position `relative_lane_position`.
    pub fn relative_lane(relative_lane_position: RelativeLanePosition) -> (r: Position)
        ensures
            r == (Position {
                relative_lane_position: Some(relative_lane_position),
                ..Position::empty_spec()
            }),
    {
        Position { relative_lane_position: Some(relative_lane_position), ..Position::empty() }
    }

    /// The trajectory position `trajectory_position`.
    pub fn trajectory(trajectory_position: TrajectoryPosition) -> (r: Position)
        ensures
            r == (Position {
                trajectory_position: Some(trajectory_position),
                ..Position::empty_spec()
            }),
    {
        Position { trajectory_position: Some(trajectory_position), ..Position::empty() }
    }

    /// The geographic position `geographic_position`.
    pub fn geographic(geographic_position: GeographicPosition) -> (r: Position)
        ensures
            r == (Position {
                geographic_position: Some(geographic_position),
                ..Position::empty_spec()
            }),
    {
        Position { geographic_position: Some(geographic_position), ..Position::empty() }
    }

    /// The position `relative_object_position`, relative to an object.
    pub fn relative_object(relative_object_position: RelativeObjectPosition) -> (r: Position)
        ensures
            r == (Position {
                relative_object_position: Some(relative_object_position),
                ..Position::empty_spec()
            }),
    {
        Position { relative_object_position: Some(relative_object_position), ..Position::empty() }
    }

    /// The position with no branch chosen.
    pub open spec fn empty_spec() -> Position {
        Position {
            world_position: None,
            relative_world_position: None,
            road_position: None,
            relative_road_position: None,
            lane_position: None,
            relative_lane_position: None,
            route_position: None,
            trajectory_position: None,
            geographic_position: None,
            relative_object_position: None,
        }
    }
}

impl Clone for Position {
    /// A copy of this position.
    fn clone(&self) -> (r: Position)
        ensures
            r.same_as(self),
    {
        self.deep_copy()
    }
}

impl Default for Position {
    /// A position with no branch chosen.
    fn default() -> (r: Position)
        ensures
            r == Position::empty_spec(),
    {
        Position::empty()
    }
}

} // verus!
