//! The entities of a scenario: vehicles, pedestrians and other objects.
use vstd::prelude::*;
use crate::basic::{OSString, Value};
use crate::catalogs::entities::{CatalogPedestrian, CatalogVehicle};
use crate::controllers::ObjectController;
use crate::duplicate::Duplicate;
use crate::references::CatalogReference;

pub mod axles;
pub mod misc_object;
pub mod pedestrian;
pub mod selection;
pub mod vehicle;

use misc_object::MiscObject;
use pedestrian::Pedestrian;
use selection::ExternalObjectReference;
use vehicle::{Trailer, Vehicle};

verus! {

/// The object that a scenario object stands for.
#[derive(Debug, Clone, PartialEq)]
pub enum EntityObject {
    Vehicle(Box<Vehicle>),
    Pedestrian(Box<Pedestrian>),
    MiscObject(Box<MiscObject>),
}

/// A reference to a vehicle or a pedestrian in a catalog.
#[derive(Debug, Clone, PartialEq)]
pub enum ScenarioEntityReference {
    Vehicle(CatalogReference),
    Pedestrian(CatalogReference),
}

/// A named entity of the scenario with the controllers assigned to it.
#[derive(Debug, PartialEq)]
pub struct ScenarioObject {
    pub name: OSString,
    pub vehicle: Option<Vehicle>,
    pub pedestrian: Option<Pedestrian>,
    pub misc_object: Option<MiscObject>,
    pub external_object_reference: Option<ExternalObjectReference>,
    pub entity_catalog_reference: Option<ScenarioEntityReference>,
    pub object_controller: Vec<ObjectController>,
}

/// The entities of a scenario.
#[derive(Debug, Clone, PartialEq)]
pub struct Entities {
    pub scenario_objects: Vec<ScenarioObject>,
}

impl ScenarioObject {
    /// Whether `other` holds the same content as `self`.
    pub open spec fn same_as(&self, other: &ScenarioObject) -> bool
        decreases self,
    {
        &&& self.name == other.name
        &&& match (&self.vehicle, &other.vehicle) {
            (Some(a), Some(b)) => a.same_as(b),
            (None, None) => true,
            _ => false,
        }
        &&& self.pedestrian.same(&other.pedestrian)
        &&& self.misc_object.same(&other.misc_object)
        &&& self.external_object_reference.same(&other.external_object_reference)
        &&& self.entity_catalog_reference.same(&other.entity_catalog_reference)
        &&& self.object_controller.same(&other.object_controller)
    }

    /// A copy of this object.
    pub fn deep_copy(&self) -> (r: ScenarioObject)
        ensures
            r.same_as(self),
        decreases self,
    {
        let vehicle = match &self.vehicle {
            Some(v) => Some(v.deep_copy()),
            None => None,
        };
        ScenarioObject {
            name: self.name.copied(),
            vehicle,
            pedestrian: self.pedestrian.copied(),
            misc_object: self.misc_object.copied(),
            external_object_reference: self.external_object_reference.copied(),
            entity_catalog_reference: self.entity_catalog_reference.copied(),
            object_controller: self.object_controller.copied(),
        }
    }

    /// Whether `o` stands for exactly one kind of object: `vehicle`, `pedestrian` or
    /// `misc_object` is the one present, the others absent.
    pub open spec fn holds_only(o: ScenarioObject, which: int) -> bool {
        &&& (o.vehicle is Some <==> which == 0)
        &&& (o.pedestrian is Some <==> which == 1)
        &&& (o.misc_object is Some <==> which == 2)
        &&& o.external_object_reference is None
        &&& (o.entity_catalog_reference is Some <==> which == 3 || which == 4)
        &&& o.object_controller@.len() == 0
    }

    /// The scenario object `name` standing for the vehicle `vehicle`.
    pub fn new_vehicle(name: String, vehicle: Vehicle) -> (r: ScenarioObject)
        ensures
            r.name == Value::<String>::Literal(name),
            r.vehicle == Some(vehicle),
            ScenarioObject::holds_only(r, 0),
    {
        ScenarioObject {
            name: Value::Literal(name),
            vehicle: Some(vehicle),
            pedestrian: None,
            misc_object: None,
            external_object_reference: None,
            entity_catalog_reference: None,
            object_controller: Vec::new(),
        }
    }

    /// The scenario object `name` standing for the pedestrian `pedestrian`.
    pub fn new_pedestrian(name: String, pedestrian: Pedestrian) -> (r: ScenarioObject)
        ensures
            r.name == Value::<String>::Literal(name),
            r.pedestrian == Some(pedestrian),
            ScenarioObject::holds_only(r, 1),
    {
        ScenarioObject {
            name: Value::Literal(name),
            vehicle: None,
            pedestrian: Some(pedestrian),
            misc_object: None,
            external_object_reference: None,
            entity_catalog_reference: None,
            object_controller: Vec::new(),
        }
    }

    /// The scenario object `name` standing for the object `misc_object`.
    pub fn new_misc_object(name: String, misc_object: MiscObject) -> (r: ScenarioObject)
        ensures
            r.name == Value::<String>::Literal(name),
            r.misc_object == Some(misc_object),
            ScenarioObject::holds_only(r, 2),
    {
        ScenarioObject {
            name: Value::Literal(name),
            vehicle: None,
            pedestrian: None,
            misc_object: Some(misc_object),
            external_object_reference: None,
            entity_catalog_reference: None,
            object_controller: Vec::new(),
        }
    }

    /// The scenario object `name` standing for the vehicle that `catalog_reference`
    /// names.
    pub fn new_vehicle_catalog_reference(name: String, catalog_reference: CatalogReference) -> (r: ScenarioObject)
        ensures
            r.name == Value::<String>::Literal(name),
            r.entity_catalog_reference == Some(ScenarioEntityReference::Vehicle(catalog_reference)),
            ScenarioObject::holds_only(r, 3),
    {
        ScenarioObject {
            name: Value::Literal(name),
            vehicle: None,
            pedestrian: None,
            misc_object: None,
            external_object_reference: None,
            entity_catalog_reference: Some(ScenarioEntityReference::Vehicle(catalog_reference)),
            object_controller: Vec::new(),
        }
    }

    /// The scenario object `name` standing for the pedestrian that
    /// `catalog_reference` names.
    pub fn new_pedestrian_catalog_reference(name: String, catalog_reference: CatalogReference) -> (r: ScenarioObject)
        ensures
            r.name == Value::<String>::Literal(name),
            r.entity_catalog_reference == Some(ScenarioEntityReference::Pedestrian(catalog_reference)),
            ScenarioObject::holds_only(r, 4),
    {
        ScenarioObject {
            name: Value::Literal(name),
            vehicle: None,
            pedestrian: None,
            misc_object: None,
            external_object_reference: None,
            entity_catalog_reference: Some(ScenarioEntityReference::Pedestrian(catalog_reference)),
            object_controller: Vec::new(),
        }
    }

    /// The vehicle catalog reference, if this object stands for one.
    pub fn vehicle_catalog_reference(&self) -> (r: Option<&CatalogReference>)
        ensures
            match self.entity_catalog_reference {
                Some(ScenarioEntityReference::Vehicle(c)) => r == Some(&c),
                _ => r is None,
            },
    {
        match &self.entity_catalog_reference {
            Some(ScenarioEntityReference::Vehicle(c)) => Some(c),
            _ => None,
        }
    }

    /// The pedestrian catalog reference, if this object stands for one.
    pub fn pedestrian_catalog_reference(&self) -> (r: Option<&CatalogReference>)
        ensures
            match self.entity_catalog_reference {
                Some(ScenarioEntityReference::Pedestrian(c)) => r == Some(&c),
                _ => r is None,
            },
    {
        match &self.entity_catalog_reference {
            Some(ScenarioEntityReference::Pedestrian(c)) => Some(c),
            _ => None,
        }
    }

    /// A copy of the object this scenario object stands for: its vehicle if it has
    /// one, else its pedestrian, else its other object; none if it has none of them.
    pub fn get_entity_object(&self) -> (r: Option<EntityObject>)
        ensures
            match (&self.vehicle, &self.pedestrian, &self.misc_object) {
                (Some(v), _, _) => r matches Some(EntityObject::Vehicle(b)) && (*b).same_as(v),
                (None, Some(p), _) => r matches Some(EntityObject::Pedestrian(b)) && (*b).same(p),
                (None, None, Some(m)) => r matches Some(EntityObject::MiscObject(b)) && (*b).same(m),
                (None, None, None) => r is None,
            },
    {
        if let Some(vehicle) = &self.vehicle {
            Some(EntityObject::Vehicle(Box::new(vehicle.deep_copy())))
        } else if let Some(pedestrian) = &self.pedestrian {
            Some(EntityObject::Pedestrian(Box::new(pedestrian.copied())))
        } else {
            match &self.misc_object {
                Some(m) => Some(EntityObject::MiscObject(Box::new(m.copied()))),
                None => None,
            }
        }
    }

    /// The name of this object, if it is given literally.
    pub fn get_name(&self) -> (r: Option<&str>)
        ensures
            match self.name {
                Value::Literal(n) => r matches Some(s) && s@ == n@,
                _ => r is None,
            },
    {
        match &self.name {
            Value::Literal(n) => Some(n.as_str()),
            _ => None,
        }
    }
}

impl Clone for ScenarioObject {
    /// A copy of this object.
    fn clone(&self) -> (r: ScenarioObject)
        ensures
            r.same_as(self),
    {
        self.deep_copy()
    }
}

impl Vehicle {
    /// Whether `other` holds the same content as `self`.
    pub open spec fn same_as(&self, other: &Vehicle) -> bool
        decreases self,
    {
        &&& self.name == other.name
        &&& self.vehicle_category == other.vehicle_category
        &&& self.role == other.role
        &&& self.mass == other.mass
        &&& self.model3d == other.model3d
        &&& self.parameter_declarations.same(&other.parameter_declarations)
        &&& self.bounding_box == other.bounding_box
        &&& self.performance == other.performance
        &&& self.axles.same(&other.axles)
        &&& self.properties.same(&other.properties)
        &&& self.trailer_hitch == other.trailer_hitch
        &&& self.trailer_coupler == other.trailer_coupler
        &&& match (&self.trailer, &other.trailer) {
            (Some(a), Some(b)) => a.same_as(b),
            (None, None) => true,
            _ => false,
        }
    }

    /// A copy of this vehicle.
    pub fn deep_copy(&self) -> (r: Vehicle)
        ensures
            r.same_as(self),
        decreases self,
    {
        let trailer = match &self.trailer {
            Some(t) => Some(t.deep_copy()),
            None => None,
        };
        Vehicle {
            name: self.name.copied(),
            vehicle_category: self.vehicle_category,
            role: self.role,
            mass: self.mass.copied(),
            model3d: self.model3d.copied(),
            parameter_declarations: self.parameter_declarations.copied(),
            bounding_box: self.bounding_box.copied(),
            performance: self.performance.copied(),
            axles: self.axles.copied(),
            properties: self.properties.copied(),
            trailer_hitch: self.trailer_hitch.copied(),
            trailer_coupler: self.trailer_coupler.copied(),
            trailer,
        }
    }
}

impl Trailer {
    /// Whether `other` holds the same content as `self`.
    pub open spec fn same_as(&self, other: &Trailer) -> bool
        decreases self,
    {
        &&& match (&self.trailer, &other.trailer) {
            (Some(a), Some(b)) => a.same_as(b),
            (None, None) => true,
            _ => false,
        }
        &&& self.trailer_ref == other.trailer_ref
    }

    /// A copy of this trailer.
    pub fn deep_copy(&self) -> (r: Trailer)
        ensures
            r.same_as(self),
        decreases self,
    {
        let trailer = match &self.trailer {
            Some(o) => Some(Box::new((**o).deep_copy())),
            None => None,
        };
        Trailer { trailer, trailer_ref: self.trailer_ref.copied() }
    }
}

/// Whether `o` is named `name`, literally.
pub open spec fn is_named(o: ScenarioObject, name: Seq<char>) -> bool {
    o.name matches Value::Literal(n) && n@ == name
}

/// Whether `r` is the first of `objs` named `name`, or none when no object is.
pub open spec fn found_first(objs: Seq<ScenarioObject>, name: Seq<char>, r: Option<ScenarioObject>) -> bool {
    match r {
        Some(o) => exists|i: int| {
            &&& 0 <= i < objs.len()
            &&& objs[i] == o
            &&& is_named(o, name)
            &&& forall|j: int| 0 <= j < i ==> !is_named(#[trigger] objs[j], name)
        },
        None => forall|j: int| 0 <= j < objs.len() ==> !is_named(#[trigger] objs[j], name),
    }
}

/// After an object named `name` is added to entities that hold none so named, looking
/// `name` up finds that object and no other; adding an object named otherwise leaves
/// every lookup of `name` as it was.
pub proof fn lemma_find_after_add(objs: Seq<ScenarioObject>, obj: ScenarioObject, name: Seq<char>)
    ensures
        is_named(obj, name) && found_first(objs, name, None) ==> found_first(objs.push(obj), name, Some(obj)),
        is_named(obj, name) && found_first(objs, name, None) ==> forall|o: ScenarioObject|
            #[trigger] found_first(objs.push(obj), name, Some(o)) ==> o == obj,
        !is_named(obj, name) ==> forall|r: Option<ScenarioObject>|
            #[trigger] found_first(objs, name, r) ==> found_first(objs.push(obj), name, r),
{
    let all = objs.push(obj);
    if is_named(obj, name) && found_first(objs, name, None) {
        assert(all[objs.len() as int] == obj);
        assert forall|j: int| 0 <= j < objs.len() implies !is_named(#[trigger] all[j], name) by {
            assert(all[j] == objs[j]);
        }
        assert forall|o: ScenarioObject| #[trigger] found_first(all, name, Some(o)) implies o == obj by {
            let i = choose|i: int| {
                &&& 0 <= i < all.len()
                &&& all[i] == o
                &&& is_named(o, name)
                &&& forall|j: int| 0 <= j < i ==> !is_named(#[trigger] all[j], name)
            };
            if i < objs.len() {
                assert(all[i] == objs[i]);
            }
        }
    }
    if !is_named(obj, name) {
        assert forall|r: Option<ScenarioObject>| #[trigger] found_first(objs, name, r) implies found_first(all, name, r) by {
            match r {
                Some(o) => {
                    let i = choose|i: int| {
                        &&& 0 <= i < objs.len()
                        &&& objs[i] == o
                        &&& is_named(o, name)
                        &&& forall|j: int| 0 <= j < i ==> !is_named(#[trigger] objs[j], name)
                    };
                    assert(all[i] == objs[i]);
                    assert forall|j: int| 0 <= j < i implies !is_named(#[trigger] all[j], name) by {
                        assert(all[j] == objs[j]);
                    }
                },
                None => {
                    assert forall|j: int| 0 <= j < all.len() implies !is_named(#[trigger] all[j], name) by {
                        if j < objs.len() {
                            assert(all[j] == objs[j]);
                        }
                    }
                },
            }
        }
    }
}

impl Entities {
    /// No entities.
    pub fn new() -> (r: Entities)
        ensures
            r.scenario_objects@.len() == 0,
    {
        Entities { scenario_objects: Vec::new() }
    }

    /// Appends `object` to the entities.
    pub fn add_object(&mut self, object: ScenarioObject)
        ensures
            final(self).scenario_objects@ == old(self).scenario_objects@.push(object),
    {
        self.scenario_objects.push(object);
    }

    /// The first entity whose name is given literally as `name`, if any.
    pub fn find_object(&self, name: &str) -> (r: Option<&ScenarioObject>)
        ensures
            found_first(self.scenario_objects@, name@, match r {
                Some(o) => Some(*o),
                None => None,
            }),
    {
        let mut i: usize = 0;
        while i < self.scenario_objects.len()
            invariant
                i <= self.scenario_objects@.len(),
                forall|j: int| 0 <= j < i ==> !is_named(#[trigger] self.scenario_objects@[j], name@),
            decreases self.scenario_objects@.len() - i,
        {
            let o = &self.scenario_objects[i];
            match o.get_name() {
                Some(n) => {
                    if crate::text::str_eq(n, name) {
                        return Some(o);
                    }
                },
                None => {},
            }
            i = i + 1;
        }
        None
    }
}

impl Default for Entities {
    /// No entities.
    fn default() -> (r: Entities)
        ensures
            r.scenario_objects@.len() == 0,
    {
        Entities::new()
    }
}

} // verus!
