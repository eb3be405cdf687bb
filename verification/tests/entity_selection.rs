use openscenario::basic::{Double, Real};
use openscenario::entities::selection::{
    ByObjectType, ByType, EntityDistributionEntry, EntitySelection, ExternalObjectReference,
    ScenarioObjectTemplate, SelectedEntities,
};
use openscenario::enums::ObjectType;

fn r(x: f64) -> Real {
    Real::new(&format!("{:?}", x))
}

fn lit(v: &Double) -> Option<f64> {
    v.as_literal().map(|x| x.as_str().parse::<f64>().unwrap())
}

#[test]
fn test_entity_selection_creation() {
    // Test by object type
    let selection = EntitySelection::by_object_type(ObjectType::Vehicle);
    assert!(selection.by_type.is_some());
    assert_eq!(selection.by_type.unwrap().object_type, ObjectType::Vehicle);
}

#[test]
fn test_selected_entities() {
    let mut entities = SelectedEntities::new();
    assert_eq!(entities.count(), 0);

    entities.add_entity("Ego");
    entities.add_entity("Target1");
    assert_eq!(entities.count(), 2);

    let entities_from_names = SelectedEntities::from_names(vec!["Car1", "Car2", "Car3"]);
    assert_eq!(entities_from_names.count(), 3);
}

#[test]
fn selection_test_entity_distribution_entry() {
    let template = ScenarioObjectTemplate::new("TestEntity", ObjectType::Vehicle);
    let entry = EntityDistributionEntry::new(template, r(0.75));
    assert_eq!(
        entry.scenario_object_template.name.as_literal().unwrap(),
        "TestEntity"
    );
    assert_eq!(lit(&entry.weight).unwrap(), 0.75);
}

#[test]
fn test_scenario_object_template() {
    let template = ScenarioObjectTemplate::new("VehicleTemplate", ObjectType::Vehicle);
    assert_eq!(template.name.as_literal().unwrap(), "VehicleTemplate");
    assert_eq!(template.object_type, ObjectType::Vehicle);

    let external_template = ScenarioObjectTemplate::with_external_reference(
        "ExternalVehicle",
        ObjectType::Vehicle,
        "SportsCar",
    );
    assert!(external_template.external_object_reference.is_some());
    let ext_ref = external_template.external_object_reference.unwrap();
    assert_eq!(ext_ref.name.as_literal().unwrap(), "SportsCar");
}

#[test]
fn selection_test_external_object_reference() {
    let ext_ref = ExternalObjectReference::new("Sedan");
    assert_eq!(ext_ref.name.as_literal().unwrap(), "Sedan");
}

#[test]
fn selection_test_by_object_type() {
    let vehicle_selector = ByObjectType::vehicle();
    assert_eq!(vehicle_selector.object_type, ObjectType::Vehicle);

    let pedestrian_selector = ByObjectType::pedestrian();
    assert_eq!(pedestrian_selector.object_type, ObjectType::Pedestrian);

    let misc_selector = ByObjectType::miscellaneous_object();
    assert_eq!(misc_selector.object_type, ObjectType::MiscellaneousObject);
}

#[test]
fn selection_test_by_type() {
    let type_selector = ByType::new(ObjectType::Vehicle);
    assert_eq!(type_selector.type_spec, ObjectType::Vehicle);
}
