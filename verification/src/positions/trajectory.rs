//! Trajectories as positions are given on them, and positions along trajectories.
use vstd::prelude::*;
use crate::actions::movement::TrajectoryRef;
use crate::basic::{is_str_literal, Double, OSString, ParameterDeclarations, Real, Value};
use crate::geometry::{Polyline, Shape};
use crate::positions::road::Orientation;
use crate::positions::Position;

verus! {

/// A trajectory with its parameters and shape.
#[derive(Debug, Clone, PartialEq)]
pub struct Trajectory {
    pub name: OSString,
    pub closed: bool,
    pub parameter_declarations: Option<ParameterDeclarations>,
    pub shape: Shape,
}

/// A clothoid: a curve whose curvature changes linearly with its length.
#[derive(Debug, Clone, PartialEq)]
pub struct Clothoid {
    pub curvature: Double,
    pub curvature_dot: Option<Double>,
    pub curvature_prime: Option<Double>,
    pub length: Double,
    pub start_time: Option<Double>,
    pub stop_time: Option<Double>,
    pub start_position: Position,
}

/// A position along a trajectory: a distance along it and an offset across it.
#[derive(Debug, Clone, PartialEq)]
pub struct TrajectoryPosition {
    pub s: Double,
    pub t: Option<Double>,
    pub orientation: Option<Orientation>,
    pub trajectory_ref: TrajectoryRef,
}

impl TrajectoryPosition {
    /// The position at distance `s` along the trajectory `trajectory_ref`.
    pub fn new(s: Real, trajectory_ref: TrajectoryRef) -> (r: TrajectoryPosition)
        ensures
            r == (TrajectoryPosition { s: Value::Literal(s), t: None, orientation: None, trajectory_ref }),
    {
        TrajectoryPosition { s: Value::Literal(s), t: None, orientation: None, trajectory_ref }
    }

    /// The position at distance `s` along the trajectory, offset by `t` across it.
    pub fn with_offset(s: Real, t: Real, trajectory_ref: TrajectoryRef) -> (r: TrajectoryPosition)
        ensures
            r == (TrajectoryPosition {
                s: Value::Literal(s),
                t: Some(Value::Literal(t)),
                orientation: None,
                trajectory_ref,
            }),
    {
        TrajectoryPosition {
            s: Value::Literal(s),
            t: Some(Value::Literal(t)),
            orientation: None,
            trajectory_ref,
        }
    }

    /// This position with the orientation `orientation`.
    pub fn with_orientation(self, orientation: Orientation) -> (r: TrajectoryPosition)
        ensures
            r == (TrajectoryPosition { orientation: Some(orientation), ..self }),
    {
        let mut p = self;
        p.orientation = Some(orientation);
        p
    }

    /// The position at distance `s` along the trajectory, offset by `t` across it.
    pub fn at_distance(s: Real, t: Real, trajectory_ref: TrajectoryRef) -> (r: TrajectoryPosition)
        ensures
            r == (TrajectoryPosition {
                s: Value::Literal(s),
                t: Some(Value::Literal(t)),
                orientation: None,
                trajectory_ref,
            }),
    {
        TrajectoryPosition::with_offset(s, t, trajectory_ref)
    }
}

impl Default for Trajectory {
    /// An open trajectory with an empty name, whose shape is an empty polyline.
    fn default() -> (r: Trajectory)
        ensures
            is_str_literal(r.name, Seq::empty()),
            !r.closed,
            r.parameter_declarations is None,
            r.shape.polyline matches Some(p) && p.vertices@.len() == 0,
            r.shape.clothoid is None,
            r.shape.clothoid_spline is None,
            r.shape.nurbs is None,
    {
        Trajectory {
            name: Value::Literal(String::new()),
            closed: false,
            parameter_declarations: None,
            shape: Shape {
                polyline: Some(Polyline { vertices: Vec::new() }),
                clothoid: None,
                clothoid_spline: None,
                nurbs: None,
            },
        }
    }
}

} // verus!
