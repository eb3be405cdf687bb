//! Controllers, which drive the behaviour of entities, and the elements that assign
//! them.
use vstd::prelude::*;
use crate::basic::{Directory, OSString, ParameterDeclarations, Value};
use crate::catalogs::entities::CatalogController;
use crate::entities::vehicle::{Properties, Property};
use crate::enums::ControllerType;
use crate::references::CatalogReference;

verus! {

/// A reference to a controller in a catalog.
pub type ControllerCatalogReference = CatalogReference;

/// A controller with its type, parameters and properties.
#[derive(Debug, Clone, PartialEq)]
pub struct Controller {
    pub name: OSString,
    pub controller_type: Option<ControllerType>,
    pub parameter_declarations: Option<ParameterDeclarations>,
    pub properties: Option<Properties>,
}

/// The controller of a scenario object: a controller given in place or a reference to
/// one in a catalog; at most one of the two is present.
#[derive(Debug, Clone, PartialEq)]
pub struct ObjectController {
    pub name: Option<OSString>,
    pub controller: Option<Controller>,
    pub catalog_reference: Option<ControllerCatalogReference>,
}

/// One field of an object controller element, as a document lists them.
#[derive(Debug, Clone, PartialEq)]
pub enum ObjectControllerField {
    Name(OSString),
    Controller(Controller),
    CatalogReference(ControllerCatalogReference),
}

/// The properties of a controller.
#[derive(Debug, Clone, PartialEq)]
pub struct ControllerProperties {
    pub properties: Vec<Property>,
}

/// The directory in which controller catalogs are found.
#[derive(Debug, Clone, PartialEq)]
pub struct ControllerCatalogLocation {
    pub directory: Directory,
}

impl Default for ObjectController {
    /// An object controller with neither a controller nor a reference.
    fn default() -> (r: ObjectController)
        ensures
            r.name is None,
            r.controller is None,
            r.catalog_reference is None,
    {
        ObjectController { name: None, controller: None, catalog_reference: None }
    }
}

impl Default for ControllerProperties {
    /// No properties.
    fn default() -> (r: ControllerProperties)
        ensures
            r.properties@.len() == 0,
    {
        ControllerProperties { properties: Vec::new() }
    }
}

impl Controller {
    /// The controller `name` of type `controller_type`.
    pub fn new(name: String, controller_type: ControllerType) -> (r: Controller)
        ensures
            r.name == Value::<String>::Literal(name),
            r.controller_type == Some(controller_type),
            r.parameter_declarations is None,
            r.properties is None,
    {
        Controller {
            name: Value::Literal(name),
            controller_type: Some(controller_type),
            parameter_declarations: None,
            properties: None,
        }
    }

    /// The controller `name` of type `controller_type` that declares `parameters`.
    pub fn with_parameters(name: String, controller_type: ControllerType, parameters: ParameterDeclarations) -> (r: Controller)
        ensures
            r.name == Value::<String>::Literal(name),
            r.controller_type == Some(controller_type),
            r.parameter_declarations == Some(parameters),
            r.properties is None,
    {
        Controller {
            name: Value::Literal(name),
            controller_type: Some(controller_type),
            parameter_declarations: Some(parameters),
            properties: None,
        }
    }

    /// The controller `name` of type `controller_type` with `properties`.
    pub fn with_properties(name: String, controller_type: ControllerType, properties: Properties) -> (r: Controller)
        ensures
            r.name == Value::<String>::Literal(name),
            r.controller_type == Some(controller_type),
            r.parameter_declarations is None,
            r.properties == Some(properties),
    {
        Controller {
            name: Value::Literal(name),
            controller_type: Some(controller_type),
            parameter_declarations: None,
            properties: Some(properties),
        }
    }
}

/// The message that [`ObjectController::validate`] gives for an object controller with
/// both a controller and a reference.
pub open spec fn at_most_one_message() -> Seq<char> {
    "ObjectController must contain at most one of Controller or CatalogReference, found both"@
}

/// The message for an object controller with both a controller and a reference, when
/// exactly one is required.
pub open spec fn found_both_message() -> Seq<char> {
    "ObjectController must contain exactly one of Controller or CatalogReference, found both"@
}

/// The message for an object controller with neither a controller nor a reference,
/// when exactly one is required.
pub open spec fn found_neither_message() -> Seq<char> {
    "ObjectController must contain exactly one of Controller or CatalogReference, found neither"@
}

/// Which of the three fields of an object controller `f` is: 0 for the name, 1 for a
/// controller, 2 for a reference.
pub open spec fn field_kind(f: ObjectControllerField) -> int {
    match f {
        ObjectControllerField::Name(_) => 0,
        ObjectControllerField::Controller(_) => 1,
        ObjectControllerField::CatalogReference(_) => 2,
    }
}

/// The name under which a document writes the field of kind `kind`.
pub open spec fn field_label(kind: int) -> Seq<char> {
    if kind == 0 {
        "name"@
    } else if kind == 1 {
        "Controller"@
    } else {
        "CatalogReference"@
    }
}

/// Whether the field at index `i` of `fields` repeats the kind of an earlier field.
pub open spec fn repeats_earlier(fields: Seq<ObjectControllerField>, i: int) -> bool {
    exists|j: int| 0 <= j < i && #[trigger] field_kind(fields[j]) == field_kind(fields[i])
}

/// Whether no field among the first `n` of `fields` repeats the kind of an earlier one.
pub open spec fn no_repeat_before(fields: Seq<ObjectControllerField>, n: int) -> bool {
    forall|i: int| 0 <= i < n ==> !#[trigger] repeats_earlier(fields, i)
}

/// Whether some field among the first `n` of `fields` is of kind `kind`.
pub open spec fn has_kind(fields: Seq<ObjectControllerField>, n: int, kind: int) -> bool {
    exists|i: int| 0 <= i < n && #[trigger] field_kind(fields[i]) == kind
}

/// The message for a field of kind `kind` that occurs twice.
pub open spec fn duplicate_message(kind: int) -> Seq<char> {
    "duplicate field `"@ + field_label(kind) + "`"@
}

/// Whether `oc` holds what the fields of `fields` give: each field's value where the
/// field occurs, nothing where it does not.
pub open spec fn built_from(fields: Seq<ObjectControllerField>, oc: ObjectController) -> bool {
    &&& forall|i: int| 0 <= i < fields.len() ==> match #[trigger] fields[i] {
        ObjectControllerField::Name(n) => oc.name == Some(n),
        ObjectControllerField::Controller(c) => oc.controller == Some(c),
        ObjectControllerField::CatalogReference(c) => oc.catalog_reference == Some(c),
    }
    &&& !has_kind(fields, fields.len() as int, 0) ==> oc.name is None
    &&& !has_kind(fields, fields.len() as int, 1) ==> oc.controller is None
    &&& !has_kind(fields, fields.len() as int, 2) ==> oc.catalog_reference is None
}

impl ObjectController {
    /// Whether this object controller holds at most one of a controller and a
    /// reference.
    pub open spec fn is_valid(self) -> bool {
        !(self.controller is Some && self.catalog_reference is Some)
    }

    /// Whether this object controller holds exactly one of a controller and a
    /// reference.
    pub open spec fn is_strictly_valid(self) -> bool {
        (self.controller is Some) != (self.catalog_reference is Some)
    }

    /// The object controller with the controller `controller` in place.
    pub fn with_controller(controller: Controller) -> (r: ObjectController)
        ensures
            r == (ObjectController { name: None, controller: Some(controller), catalog_reference: None }),
    {
        ObjectController { name: None, controller: Some(controller), catalog_reference: None }
    }

    /// The object controller referring to the controller `catalog_reference` names.
    pub fn with_catalog_reference(catalog_reference: ControllerCatalogReference) -> (r: ObjectController)
        ensures
            r == (ObjectController { name: None, controller: None, catalog_reference: Some(catalog_reference) }),
    {
        ObjectController { name: None, controller: None, catalog_reference: Some(catalog_reference) }
    }

    /// The object controller `name` with the controller `controller` in place.
    pub fn with_named_controller(name: String, controller: Controller) -> (r: ObjectController)
        ensures
            r == (ObjectController {
                name: Some(Value::<String>::Literal(name)),
                controller: Some(controller),
                catalog_reference: None,
            }),
    {
        ObjectController { name: Some(Value::Literal(name)), controller: Some(controller), catalog_reference: None }
    }

    /// The object controller `name` referring to the controller `catalog_reference`
    /// names.
    pub fn with_named_catalog_reference(name: String, catalog_reference: ControllerCatalogReference) -> (r: ObjectController)
        ensures
            r == (ObjectController {
                name: Some(Value::<String>::Literal(name)),
                controller: None,
                catalog_reference: Some(catalog_reference),
            }),
    {
        ObjectController {
            name: Some(Value::Literal(name)),
            controller: None,
            catalog_reference: Some(catalog_reference),
        }
    }

    /// Accepts an object controller with at most one of a controller and a reference;
    /// an empty one is accepted too.
    pub fn validate(&self) -> (r: Result<(), String>)
        ensures
            match r {
                Ok(()) => self.is_valid(),
                Err(m) => !self.is_valid() && m@ == at_most_one_message(),
            },
    {
        if self.controller.is_some() && self.catalog_reference.is_some() {
            Err("ObjectController must contain at most one of Controller or CatalogReference, found both".to_owned())
        } else {
            Ok(())
        }
    }

    /// Accepts an object controller with exactly one of a controller and a reference.
    pub fn validate_strict(&self) -> (r: Result<(), String>)
        ensures
            match r {
                Ok(()) => self.is_strictly_valid(),
                Err(m) => {
                    ||| self.controller is Some && self.catalog_reference is Some && m@ == found_both_message()
                    ||| self.controller is None && self.catalog_reference is None && m@ == found_neither_message()
                },
            },
    {
        match (self.controller.is_some(), self.catalog_reference.is_some()) {
            (true, false) | (false, true) => Ok(()),
            (true, true) => Err(
                "ObjectController must contain exactly one of Controller or CatalogReference, found both".to_owned(),
            ),
            (false, false) => Err(
                "ObjectController must contain exactly one of Controller or CatalogReference, found neither".to_owned(),
            ),
        }
    }

    /// Builds an object controller from the fields of its element, in document order.
    /// A field that occurs twice is refused, at its second occurrence; an element with
    /// both a controller and a reference is refused; an empty one is accepted.
    pub fn from_fields(fields: Vec<ObjectControllerField>) -> (r: Result<ObjectController, String>)
        ensures
            match r {
                Ok(oc) => {
                    &&& no_repeat_before(fields@, fields@.len() as int)
                    &&& !(has_kind(fields@, fields@.len() as int, 1) && has_kind(fields@, fields@.len() as int, 2))
                    &&& built_from(fields@, oc)
                },
                Err(m) => {
                    ||| exists|i: int| {
                        &&& 0 <= i < fields@.len()
                        &&& #[trigger] repeats_earlier(fields@, i)
                        &&& no_repeat_before(fields@, i)
                        &&& m@ == duplicate_message(field_kind(fields@[i]))
                    }
                    ||| no_repeat_before(fields@, fields@.len() as int)
                        && has_kind(fields@, fields@.len() as int, 1)
                        && has_kind(fields@, fields@.len() as int, 2)
                        && m@ == found_both_message()
                },
            },
    {
        let ghost all = fields@;
        let mut name: Option<OSString> = None;
        let mut controller: Option<Controller> = None;
        let mut catalog_reference: Option<ControllerCatalogReference> = None;
        for field in it: fields.into_iter()
            invariant
                it.seq() == all,
                no_repeat_before(all, it.index() as int),
                name is Some <==> has_kind(all, it.index() as int, 0),
                controller is Some <==> has_kind(all, it.index() as int, 1),
                catalog_reference is Some <==> has_kind(all, it.index() as int, 2),
                forall|i: int| 0 <= i < it.index() ==> match #[trigger] all[i] {
                    ObjectControllerField::Name(n) => name == Some(n),
                    ObjectControllerField::Controller(c) => controller == Some(c),
                    ObjectControllerField::CatalogReference(c) => catalog_reference == Some(c),
                },
        {
            let ghost k = it.index() as int;
            match field {
                ObjectControllerField::Name(n) => {
                    if name.is_some() {
                        proof {
                            let j = choose|j: int| 0 <= j < k && #[trigger] field_kind(all[j]) == 0;
                            assert(field_kind(all[j]) == field_kind(all[k]));
                            assert(repeats_earlier(all, k));
                            reveal_strlit("duplicate field `name`");
                            reveal_strlit("name");
                            reveal_strlit("duplicate field `");
                            reveal_strlit("`");
                            assert("duplicate field `name`"@ =~= duplicate_message(0));
                        }
                        return Err("duplicate field `name`".to_owned());
                    }
                    proof {
                        assert forall|i: int| 0 <= i < k implies field_kind(all[i]) != 0 by {
                            if field_kind(all[i]) == 0 {
                                assert(has_kind(all, k, 0));
                            }
                        }
                    }
                    name = Some(n);
                },
                ObjectControllerField::Controller(c) => {
                    if controller.is_some() {
                        proof {
                            let j = choose|j: int| 0 <= j < k && #[trigger] field_kind(all[j]) == 1;
                            assert(field_kind(all[j]) == field_kind(all[k]));
                            assert(repeats_earlier(all, k));
                            reveal_strlit("duplicate field `Controller`");
                            reveal_strlit("Controller");
                            reveal_strlit("duplicate field `");
                            reveal_strlit("`");
                            assert("duplicate field `Controller`"@ =~= duplicate_message(1));
                        }
                        return Err("duplicate field `Controller`".to_owned());
                    }
                    proof {
                        assert forall|i: int| 0 <= i < k implies field_kind(all[i]) != 1 by {
                            if field_kind(all[i]) == 1 {
                                assert(has_kind(all, k, 1));
                            }
                        }
                    }
                    controller = Some(c);
                },
                ObjectControllerField::CatalogReference(c) => {
                    if catalog_reference.is_some() {
                        proof {
                            let j = choose|j: int| 0 <= j < k && #[trigger] field_kind(all[j]) == 2;
                            assert(field_kind(all[j]) == field_kind(all[k]));
                            assert(repeats_earlier(all, k));
                            reveal_strlit("duplicate field `CatalogReference`");
                            reveal_strlit("CatalogReference");
                            reveal_strlit("duplicate field `");
                            reveal_strlit("`");
                            assert("duplicate field `CatalogReference`"@ =~= duplicate_message(2));
                        }
                        return Err("duplicate field `CatalogReference`".to_owned());
                    }
                    proof {
                        assert forall|i: int| 0 <= i < k implies field_kind(all[i]) != 2 by {
                            if field_kind(all[i]) == 2 {
                                assert(has_kind(all, k, 2));
                            }
                        }
                    }
                    catalog_reference = Some(c);
                },
            }
            proof {
                assert(!repeats_earlier(all, k));
                assert forall|kind: int| has_kind(all, k + 1, kind) <==> (has_kind(all, k, kind) || field_kind(all[k]) == kind) by {
                    if has_kind(all, k + 1, kind) {
                        let i = choose|i: int| 0 <= i < k + 1 && #[trigger] field_kind(all[i]) == kind;
                        if i < k {
                            assert(has_kind(all, k, kind));
                        }
                    }
                    if has_kind(all, k, kind) {
                        let i = choose|i: int| 0 <= i < k && #[trigger] field_kind(all[i]) == kind;
                        assert(0 <= i < k + 1 && field_kind(all[i]) == kind);
                    }
                    if field_kind(all[k]) == kind {
                        assert(0 <= k < k + 1 && field_kind(all[k]) == kind);
                    }
                }
            }
        }
        if controller.is_some() && catalog_reference.is_some() {
            return Err(
                "ObjectController must contain exactly one of Controller or CatalogReference, found both".to_owned(),
            );
        }
        Ok(ObjectController { name, controller, catalog_reference })
    }
}

/// What strict validation accepts, validation accepts too; the two disagree on exactly
/// the object controllers that hold neither a controller nor a reference.
pub proof fn lemma_strict_validation_refines(oc: ObjectController)
    ensures
        oc.is_strictly_valid() ==> oc.is_valid(),
        (oc.is_valid() && !oc.is_strictly_valid()) <==> (oc.controller is None && oc.catalog_reference is None),
{
}

/// An object controller built from the fields of an element that holds no controller
/// and reference together passes validation.
pub proof fn lemma_built_controller_is_valid(fields: Seq<ObjectControllerField>, oc: ObjectController)
    requires
        !(has_kind(fields, fields.len() as int, 1) && has_kind(fields, fields.len() as int, 2)),
        built_from(fields, oc),
    ensures
        oc.is_valid(),
{
}

} // verus!
