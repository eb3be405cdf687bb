//! Trajectories that entities follow, the references that name them, and moving an
//! entity to a position.
use vstd::prelude::*;
use crate::basic::{Boolean, OSString, Value};
use crate::catalogs::trajectories::CatalogTrajectory;
use crate::geometry::Shape;
use crate::positions::Position;
use crate::references::CatalogReference;

verus! {

/// A named trajectory with its shape.
#[derive(Debug, Clone, PartialEq)]
pub struct Trajectory {
    pub name: OSString,
    pub closed: Boolean,
    pub shape: Shape,
}

/// A trajectory given in place or by a reference to a trajectory catalog: one of the
/// two is meant to be present.
#[derive(Debug, Clone, PartialEq)]
pub struct TrajectoryRef {
    pub trajectory: Option<Box<Trajectory>>,
    pub catalog_reference: Option<CatalogReference>,
}

/// Moves an entity to a position at once.
#[derive(Debug, Clone, PartialEq)]
pub struct TeleportAction {
    pub position: Position,
}

impl Trajectory {
    /// The trajectory `name` with shape `shape`, closed or not.
    pub fn new(name: &str, closed: bool, shape: Shape) -> (r: Trajectory)
        ensures
            r.name matches Value::Literal(n) && n@ == name@,
            r.closed == Value::<bool>::Literal(closed),
            r.shape == shape,
    {
        Trajectory { name: Value::Literal(name.to_owned()), closed: Value::Literal(closed), shape }
    }
}

impl TrajectoryRef {
    /// The trajectory `trajectory`, given in place.
    pub fn with_trajectory(trajectory: Trajectory) -> (r: TrajectoryRef)
        ensures
            r == (TrajectoryRef { trajectory: Some(Box::new(trajectory)), catalog_reference: None }),
    {
        TrajectoryRef { trajectory: Some(Box::new(trajectory)), catalog_reference: None }
    }

    /// The trajectory that `reference` names in a trajectory catalog.
    pub fn with_catalog_reference(reference: CatalogReference) -> (r: TrajectoryRef)
        ensures
            r == (TrajectoryRef { trajectory: None, catalog_reference: Some(reference) }),
    {
        TrajectoryRef { trajectory: None, catalog_reference: Some(reference) }
    }
}

impl Default for TrajectoryRef {
    /// A reference with neither branch present.
    fn default() -> (r: TrajectoryRef)
        ensures
            r.trajectory is None,
            r.catalog_reference is None,
    {
        TrajectoryRef { trajectory: None, catalog_reference: None }
    }
}

impl Default for TeleportAction {
    /// A move to a position with no branch chosen.
    fn default() -> (r: TeleportAction)
        ensures
            Position::is_empty(r.position),
    {
        TeleportAction { position: Position::empty() }
    }
}

} // verus!
