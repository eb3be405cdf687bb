//! Positions on roads and lanes, and the orientation that positions may carry.
use vstd::prelude::*;
use crate::basic::{Double, Int, OSString, Value};
use crate::enums::ReferenceContext;

verus! {

/// An orientation: heading, pitch and roll, absolute or relative to a reference.
#[derive(Debug, Clone, PartialEq)]
pub struct Orientation {
    pub h: Option<Double>,
    pub p: Option<Double>,
    pub r: Option<Double>,
    pub reference_context: Option<Value<ReferenceContext>>,
}

/// A position on a road in road coordinates.
#[derive(Debug, Clone, PartialEq)]
pub struct RoadPosition {
    pub road_id: OSString,
    pub s: Double,
    pub t: Double,
    pub orientation: Option<Orientation>,
}

/// A position given by its offset in road coordinates from an entity.
#[derive(Debug, Clone, PartialEq)]
pub struct RelativeRoadPosition {
    pub entity_ref: OSString,
    pub ds: Double,
    pub dt: Double,
    pub orientation: Option<Orientation>,
}

/// A position in a lane of a road.
#[derive(Debug, Clone, PartialEq)]
pub struct LanePosition {
    pub road_id: OSString,
    pub lane_id: OSString,
    pub offset: Option<Double>,
    pub s: Double,
    pub orientation: Option<Orientation>,
}

/// A position given by its offset in lanes from an entity.
#[derive(Debug, Clone, PartialEq)]
pub struct RelativeLanePosition {
    pub entity_ref: OSString,
    pub d_lane: Int,
    pub ds: Option<Double>,
    pub ds_lane: Option<Double>,
    pub offset: Option<Double>,
    pub orientation: Option<Orientation>,
}

} // verus!
