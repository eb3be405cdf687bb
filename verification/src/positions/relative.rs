//! Positions relative to objects.
use vstd::prelude::*;
use crate::basic::{Double, OSString};
use crate::positions::road::Orientation;

verus! {

/// A position given by its offset in the coordinates of an object.
#[derive(Debug, Clone, PartialEq)]
pub struct RelativeObjectPosition {
    pub entity_ref: OSString,
    pub dx: Double,
    pub dy: Double,
    pub dz: Option<Double>,
    pub orientation: Option<Orientation>,
}

} // verus!
