use openscenario::controllers::{
    Controller, ControllerCatalogReference, ControllerProperties, ObjectController,
};
use openscenario::entities::vehicle::Property;
use openscenario::enums::ControllerType;

#[test]
fn test_controller_creation() {
    let controller = Controller::new("TestController".to_string(), ControllerType::Movement);

    assert_eq!(controller.name.as_literal().unwrap(), "TestController");
    assert_eq!(controller.controller_type, Some(ControllerType::Movement));
}

#[test]
fn test_object_controller_with_direct_controller() {
    let controller = Controller::new("DirectController".to_string(), ControllerType::Lateral);
    let object_controller = ObjectController::with_controller(controller);

    assert!(object_controller.controller.is_some());
    assert!(object_controller.catalog_reference.is_none());
}

#[test]
fn test_controller_properties() {
    let mut properties = ControllerProperties::default();
    // Create a simple property with correct String types
    let property = Property {
        name: "testProp".to_string(),
        value: "testValue".to_string(),
    };
    properties.properties.push(property);

    assert_eq!(properties.properties.len(), 1);
}

#[test]
fn test_controller_defaults() {
    let object_controller = ObjectController::default();
    let properties = ControllerProperties::default();

    // All defaults should be valid
    assert!(object_controller.controller.is_none());
    assert!(object_controller.catalog_reference.is_none());
    assert!(properties.properties.is_empty());
}

#[test]
fn test_object_controller_validation() {
    // Test valid controller with direct controller
    let valid_direct = ObjectController {
        name: None,
        controller: Some(Controller::new(
            "TestController".to_string(),
            ControllerType::Movement,
        )),
        catalog_reference: None,
    };
    assert!(valid_direct.validate().is_ok());

    // Test valid controller with catalog reference
    let valid_catalog = ObjectController {
        name: None,
        controller: None,
        catalog_reference: Some(ControllerCatalogReference::new(
            "catalog".to_string(),
            "entry".to_string(),
        )),
    };
    assert!(valid_catalog.validate().is_ok());

    // Test empty controller (allowed for backward compatibility)
    let empty_controller = ObjectController {
        name: None,
        controller: None,
        catalog_reference: None,
    };
    assert!(empty_controller.validate().is_ok());
    // But strict validation should fail
    assert!(empty_controller.validate_strict().is_err());

    // Test invalid controller with both controller and reference
    let invalid_both = ObjectController {
        name: None,
        controller: Some(Controller::new(
            "TestController".to_string(),
            ControllerType::Movement,
        )),
        catalog_reference: Some(ControllerCatalogReference::new(
            "catalog".to_string(),
            "entry".to_string(),
        )),
    };
    assert!(invalid_both.validate().is_err());

    // Test named controller
    let named_controller = ObjectController::with_named_controller(
        "TestController".to_string(),
        Controller::new("TestController".to_string(), ControllerType::Movement),
    );
    assert!(named_controller.validate().is_ok());
    assert_eq!(
        named_controller
            .name
            .as_ref()
            .unwrap()
            .as_literal()
            .unwrap(),
        "TestController"
    );
}
