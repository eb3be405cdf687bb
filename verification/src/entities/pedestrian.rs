//! Pedestrians.
use vstd::prelude::*;
use crate::basic::{Double, OSString, ParameterDeclarations};
use crate::entities::vehicle::Properties;
use crate::enums::{PedestrianCategory, Role};
use crate::geometry::BoundingBox;

verus! {

/// A pedestrian, wheelchair user or animal.
#[derive(Debug, Clone, PartialEq)]
pub struct Pedestrian {
    pub name: OSString,
    pub pedestrian_category: PedestrianCategory,
    pub mass: Double,
    pub role: Option<Role>,
    pub model3d: Option<String>,
    pub bounding_box: BoundingBox,
    pub properties: Option<Properties>,
    pub parameter_declarations: Option<ParameterDeclarations>,
}

} // verus!
