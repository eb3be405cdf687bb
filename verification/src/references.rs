//! References to catalog entries and to entities of a scenario.
use vstd::prelude::*;
use crate::basic::{is_str_literal, OSString, Value};

verus! {

/// A reference to the entry `entry_name` of the catalog `catalog_name`, with values
/// for the entry's parameters.
#[derive(Debug, Clone, PartialEq)]
pub struct CatalogReference {
    pub catalog_name: OSString,
    pub entry_name: OSString,
    pub parameter_assignments: Option<ParameterAssignments>,
}

/// The values assigned to the parameters of a referenced catalog entry.
#[derive(Debug, Clone, PartialEq)]
pub struct ParameterAssignments {
    pub parameter_assignments: Vec<ParameterAssignment>,
}

/// A value assigned to one parameter of a referenced catalog entry.
#[derive(Debug, Clone, PartialEq)]
pub struct ParameterAssignment {
    pub parameter_ref: OSString,
    pub value: OSString,
}

/// A reference to an entity of the scenario by its name.
#[derive(Debug, Clone, PartialEq)]
pub struct EntityRef {
    pub entity_ref: OSString,
}

impl CatalogReference {
    /// A reference to `entry_name` in `catalog_name`, with no parameter assignments.
    pub fn new(catalog_name: String, entry_name: String) -> (r: CatalogReference)
        ensures
            r.catalog_name == Value::<String>::Literal(catalog_name),
            r.entry_name == Value::<String>::Literal(entry_name),
            r.parameter_assignments is None,
    {
        CatalogReference {
            catalog_name: Value::Literal(catalog_name),
            entry_name: Value::Literal(entry_name),
            parameter_assignments: None,
        }
    }
}

impl ParameterAssignment {
    /// The assignment of `value` to the parameter `parameter_ref`.
    pub fn new(parameter_ref: OSString, value: OSString) -> (r: ParameterAssignment)
        ensures
            r.parameter_ref == parameter_ref,
            r.value == value,
    {
        ParameterAssignment { parameter_ref, value }
    }
}

impl EntityRef {
    /// A reference to the entity named `name`.
    pub fn new(name: String) -> (r: EntityRef)
        ensures
            r.entity_ref == Value::<String>::Literal(name),
    {
        EntityRef { entity_ref: Value::Literal(name) }
    }
}

impl Default for EntityRef {
    /// A reference to the entity `DefaultEntity`.
    fn default() -> (r: EntityRef)
        ensures
            is_str_literal(r.entity_ref, "DefaultEntity"@),
    {
        EntityRef { entity_ref: Value::Literal("DefaultEntity".to_owned()) }
    }
}

} // verus!
