//! Selections of entities, and distributions from which entities are spawned.
use vstd::prelude::*;
use crate::basic::{is_real_literal, is_str_literal, real_literal, Double, OSString, Real, Value};
use crate::controllers::ObjectController;
use crate::enums::ObjectType;
use crate::references::EntityRef;

verus! {

/// A selection of entities by criteria.
#[derive(Debug, Clone, PartialEq)]
pub struct EntitySelection {
    pub by_type: Option<ByObjectType>,
}

/// Entities selected by name.
#[derive(Debug, Clone, PartialEq)]
pub struct SelectedEntities {
    pub entity_refs: Vec<EntityRef>,
}

/// A weighted distribution of entity templates.
#[derive(Debug, Clone, PartialEq)]
pub struct EntityDistribution {
    pub entries: Vec<EntityDistributionEntry>,
}

/// One weighted template of an entity distribution.
#[derive(Debug, Clone, PartialEq)]
pub struct EntityDistributionEntry {
    pub weight: Double,
    pub scenario_object_template: ScenarioObjectTemplate,
}

/// A template from which scenario objects are made.
#[derive(Debug, Clone, PartialEq)]
pub struct ScenarioObjectTemplate {
    pub name: OSString,
    pub object_type: ObjectType,
    pub external_object_reference: Option<ExternalObjectReference>,
    pub object_controller: Vec<ObjectController>,
}

/// A reference to an object defined outside the scenario, by name.
#[derive(Debug, Clone, PartialEq)]
pub struct ExternalObjectReference {
    pub name: OSString,
}

/// Selects entities of one object type.
#[derive(Debug, Clone, PartialEq)]
pub struct ByObjectType {
    pub object_type: ObjectType,
}

/// Selects entities of one object type, given as the `objectType` attribute.
#[derive(Debug, Clone, PartialEq)]
pub struct ByType {
    pub type_spec: ObjectType,
}

impl Default for EntitySelection {
    /// The selection of all vehicles.
    fn default() -> (r: EntitySelection)
        ensures
            r.by_type == Some(ByObjectType { object_type: ObjectType::Vehicle }),
    {
        EntitySelection { by_type: Some(ByObjectType::default()) }
    }
}

impl Default for SelectedEntities {
    /// The selection of the entity `DefaultEntity`.
    fn default() -> (r: SelectedEntities)
        ensures
            r.entity_refs@.len() == 1,
            is_str_literal(r.entity_refs@[0].entity_ref, "DefaultEntity"@),
    {
        let mut entity_refs: Vec<EntityRef> = Vec::new();
        entity_refs.push(EntityRef::default());
        SelectedEntities { entity_refs }
    }
}

impl Default for EntityDistribution {
    /// The distribution with the default entry alone.
    fn default() -> (r: EntityDistribution)
        ensures
            r.entries@.len() == 1,
            is_default_entry(r.entries@[0]),
    {
        let mut entries: Vec<EntityDistributionEntry> = Vec::new();
        entries.push(EntityDistributionEntry::default());
        EntityDistribution { entries }
    }
}

/// Whether `e` is the template `DefaultTemplate` of a vehicle with weight `1.0`.
pub open spec fn is_default_entry(e: EntityDistributionEntry) -> bool {
    &&& is_real_literal(e.weight, "1.0"@)
    &&& is_default_template(e.scenario_object_template)
}

/// Whether `t` is the vehicle template `DefaultTemplate`, with no external reference
/// and no controllers.
pub open spec fn is_default_template(t: ScenarioObjectTemplate) -> bool {
    &&& is_str_literal(t.name, "DefaultTemplate"@)
    &&& t.object_type == ObjectType::Vehicle
    &&& t.external_object_reference is None
    &&& t.object_controller@.len() == 0
}

impl Default for EntityDistributionEntry {
    /// The template `DefaultTemplate` of a vehicle with weight `1.0`.
    fn default() -> (r: EntityDistributionEntry)
        ensures
            is_default_entry(r),
    {
        EntityDistributionEntry {
            weight: real_literal("1.0"),
            scenario_object_template: ScenarioObjectTemplate::default(),
        }
    }
}

impl Default for ScenarioObjectTemplate {
    /// The vehicle template `DefaultTemplate`.
    fn default() -> (r: ScenarioObjectTemplate)
        ensures
            is_default_template(r),
    {
        ScenarioObjectTemplate {
            name: Value::Literal("DefaultTemplate".to_owned()),
            object_type: ObjectType::Vehicle,
            external_object_reference: None,
            object_controller: Vec::new(),
        }
    }
}

impl Default for ExternalObjectReference {
    /// The reference to the object `DefaultObject`.
    fn default() -> (r: ExternalObjectReference)
        ensures
            is_str_literal(r.name, "DefaultObject"@),
    {
        ExternalObjectReference { name: Value::Literal("DefaultObject".to_owned()) }
    }
}

impl Default for ByObjectType {
    /// The selection of vehicles.
    fn default() -> (r: ByObjectType)
        ensures
            r.object_type == ObjectType::Vehicle,
    {
        ByObjectType { object_type: ObjectType::Vehicle }
    }
}

impl Default for ByType {
    /// The selection of vehicles.
    fn default() -> (r: ByType)
        ensures
            r.type_spec == ObjectType::Vehicle,
    {
        ByType { type_spec: ObjectType::Vehicle }
    }
}

impl EntitySelection {
    /// The selection of the entities of type `object_type`.
    pub fn by_object_type(object_type: ObjectType) -> (r: EntitySelection)
        ensures
            r.by_type == Some(ByObjectType { object_type }),
    {
        EntitySelection { by_type: Some(ByObjectType { object_type }) }
    }
}

impl SelectedEntities {
    /// No entities.
    pub fn new() -> (r: SelectedEntities)
        ensures
            r.entity_refs@.len() == 0,
    {
        SelectedEntities { entity_refs: Vec::new() }
    }

    /// The entities named `names`, in order.
    pub fn from_names(names: Vec<&str>) -> (r: SelectedEntities)
        ensures
            r.entity_refs@.len() == names@.len(),
            forall|i: int| 0 <= i < names@.len() ==> #[trigger] is_str_literal(r.entity_refs@[i].entity_ref, names@[i]@),
    {
        let mut entity_refs: Vec<EntityRef> = Vec::new();
        let mut i: usize = 0;
        while i < names.len()
            invariant
                i <= names@.len(),
                entity_refs@.len() == i,
                forall|j: int| 0 <= j < i ==> #[trigger] is_str_literal(entity_refs@[j].entity_ref, names@[j]@),
            decreases names@.len() - i,
        {
            entity_refs.push(EntityRef::new(names[i].to_owned()));
            i = i + 1;
        }
        SelectedEntities { entity_refs }
    }

    /// Adds the entity named `entity_name` to the selection.
    pub fn add_entity(&mut self, entity_name: &str)
        ensures
            final(self).entity_refs@.len() == old(self).entity_refs@.len() + 1,
            final(self).entity_refs@.drop_last() == old(self).entity_refs@,
            is_str_literal(final(self).entity_refs@.last().entity_ref, entity_name@),
    {
        self.entity_refs.push(EntityRef::new(entity_name.to_owned()));
        assert(self.entity_refs@.drop_last() =~= old(self).entity_refs@);
    }

    /// The number of selected entities.
    pub fn count(&self) -> (n: usize)
        ensures
            n == self.entity_refs@.len(),
    {
        self.entity_refs.len()
    }
}

impl EntityDistribution {
    /// The distribution with no entries.
    pub fn new() -> (r: EntityDistribution)
        ensures
            r.entries@.len() == 0,
    {
        EntityDistribution { entries: Vec::new() }
    }

    /// Appends the vehicle template `template_name` with weight `weight`.
    pub fn add_entry(&mut self, template_name: &str, weight: Real)
        ensures
            final(self).entries@.len() == old(self).entries@.len() + 1,
            final(self).entries@.drop_last() == old(self).entries@,
            final(self).entries@.last().weight == Value::Literal(weight),
            is_str_literal(final(self).entries@.last().scenario_object_template.name, template_name@),
            final(self).entries@.last().scenario_object_template.object_type == ObjectType::Vehicle,
            final(self).entries@.last().scenario_object_template.external_object_reference is None,
            final(self).entries@.last().scenario_object_template.object_controller@.len() == 0,
    {
        self.entries.push(EntityDistributionEntry {
            weight: Value::Literal(weight),
            scenario_object_template: ScenarioObjectTemplate::new(template_name, ObjectType::Vehicle),
        });
        assert(self.entries@.drop_last() =~= old(self).entries@);
    }
}

impl EntityDistributionEntry {
    /// The template `scenario_object_template` with weight `weight`.
    pub fn new(scenario_object_template: ScenarioObjectTemplate, weight: Real) -> (r: EntityDistributionEntry)
        ensures
            r == (EntityDistributionEntry { weight: Value::Literal(weight), scenario_object_template }),
    {
        EntityDistributionEntry { weight: Value::Literal(weight), scenario_object_template }
    }
}

impl ScenarioObjectTemplate {
    /// The template `name` of an object of type `object_type`.
    pub fn new(name: &str, object_type: ObjectType) -> (r: ScenarioObjectTemplate)
        ensures
            is_str_literal(r.name, name@),
            r.object_type == object_type,
            r.external_object_reference is None,
            r.object_controller@.len() == 0,
    {
        ScenarioObjectTemplate {
            name: Value::Literal(name.to_owned()),
            object_type,
            external_object_reference: None,
            object_controller: Vec::new(),
        }
    }

    /// The template `name` of an object of type `object_type`, defined outside the
    /// scenario as `object_name`.
    pub fn with_external_reference(name: &str, object_type: ObjectType, object_name: &str) -> (r: ScenarioObjectTemplate)
        ensures
            is_str_literal(r.name, name@),
            r.object_type == object_type,
            r.external_object_reference matches Some(e) && is_str_literal(e.name, object_name@),
            r.object_controller@.len() == 0,
    {
        ScenarioObjectTemplate {
            name: Value::Literal(name.to_owned()),
            object_type,
            external_object_reference: Some(ExternalObjectReference { name: Value::Literal(object_name.to_owned()) }),
            object_controller: Vec::new(),
        }
    }
}

impl ExternalObjectReference {
    /// The reference to the object `name`.
    pub fn new(name: &str) -> (r: ExternalObjectReference)
        ensures
            is_str_literal(r.name, name@),
    {
        ExternalObjectReference { name: Value::Literal(name.to_owned()) }
    }
}

impl ByObjectType {
    /// The selection of objects of type `object_type`.
    pub fn new(object_type: ObjectType) -> (r: ByObjectType)
        ensures
            r.object_type == object_type,
    {
        ByObjectType { object_type }
    }

    /// The selection of vehicles.
    pub fn vehicle() -> (r: ByObjectType)
        ensures
            r.object_type == ObjectType::Vehicle,
    {
        ByObjectType::new(ObjectType::Vehicle)
    }

    /// The selection of pedestrians.
    pub fn pedestrian() -> (r: ByObjectType)
        ensures
            r.object_type == ObjectType::Pedestrian,
    {
        ByObjectType::new(ObjectType::Pedestrian)
    }

    /// The selection of other objects.
    pub fn miscellaneous_object() -> (r: ByObjectType)
        ensures
            r.object_type == ObjectType::MiscellaneousObject,
    {
        ByObjectType::new(ObjectType::MiscellaneousObject)
    }
}

impl ByType {
    /// The selection of objects of type `type_spec`.
    pub fn new(type_spec: ObjectType) -> (r: ByType)
        ensures
            r.type_spec == type_spec,
    {
        ByType { type_spec }
    }
}

} // verus!
