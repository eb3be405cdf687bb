use openscenario::entities::vehicle::Vehicle;
use openscenario::entities::{Entities, EntityObject, ScenarioObject};

#[test]
fn test_scenario_object_creation() {
    let vehicle = Vehicle::default();
    let obj = ScenarioObject::new_vehicle("TestVehicle".to_string(), vehicle);

    assert_eq!(obj.get_name(), Some("TestVehicle"));

    assert!(obj.vehicle.is_some());
    assert!(obj.pedestrian.is_none());

    if let Some(v) = &obj.vehicle {
        assert_eq!(v.name.as_literal().unwrap(), "DefaultVehicle");
    }

    match obj.get_entity_object() {
        Some(EntityObject::Vehicle(v)) => {
            assert_eq!(v.name.as_literal().unwrap(), "DefaultVehicle");
        }
        _ => panic!("Expected vehicle"),
    }
}

#[test]
fn test_entities_container() {
    let mut entities = Entities::new();

    let vehicle = Vehicle::default();
    let obj = ScenarioObject::new_vehicle("TestVehicle".to_string(), vehicle);
    entities.add_object(obj);

    assert_eq!(entities.scenario_objects.len(), 1);

    let found = entities.find_object("TestVehicle");
    assert!(found.is_some());
    assert_eq!(found.unwrap().get_name(), Some("TestVehicle"));

    let not_found = entities.find_object("NonExistent");
    assert!(not_found.is_none());
}
