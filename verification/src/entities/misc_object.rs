//! Objects that are neither vehicles nor pedestrians.
use vstd::prelude::*;
use crate::basic::{Double, OSString, ParameterDeclarations, Real, Value};
use crate::entities::vehicle::Properties;
use crate::enums::MiscObjectCategory;
use crate::geometry::{is_default_box, BoundingBox};

verus! {

/// An object such as a barrier, a pole or a building.
#[derive(Debug, Clone, PartialEq)]
pub struct MiscObject {
    pub mass: Double,
    pub misc_object_category: MiscObjectCategory,
    pub name: OSString,
    pub model3d: Option<OSString>,
    pub parameter_declarations: Option<ParameterDeclarations>,
    pub bounding_box: BoundingBox,
    pub properties: Option<Properties>,
}

impl MiscObject {
    /// The object `name` of mass `mass` and category `category`, in the default box.
    pub fn new(name: String, mass: Real, category: MiscObjectCategory) -> (r: MiscObject)
        ensures
            r.mass == Value::Literal(mass),
            r.misc_object_category == category,
            r.name == Value::<String>::Literal(name),
            r.model3d is None,
            r.parameter_declarations is None,
            is_default_box(r.bounding_box),
            r.properties is None,
    {
        MiscObject {
            mass: Value::Literal(mass),
            misc_object_category: category,
            name: Value::Literal(name),
            model3d: None,
            parameter_declarations: None,
            bounding_box: BoundingBox::default(),
            properties: None,
        }
    }
}

} // verus!
