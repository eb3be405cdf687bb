use openscenario::basic::{Double, Real, Value};
use openscenario::catalogs::entities::{
    CatalogAxles, CatalogController, CatalogEntity, CatalogFrontAxle, CatalogMiscObject,
    CatalogPedestrian, CatalogPerformance, CatalogRearAxle, CatalogVehicle,
};
use openscenario::enums::{ControllerType, MiscObjectCategory, PedestrianCategory, Role};
use openscenario::geometry::BoundingBox;
use openscenario::params::ParameterMap;

fn r(x: f64) -> Real {
    Real::new(&format!("{:?}", x))
}

fn lit(v: &Double) -> Option<f64> {
    v.as_literal().map(|x| x.as_str().parse::<f64>().unwrap())
}

#[test]
fn test_catalog_vehicle_parameter_schema() {
    let schema = CatalogVehicle::parameter_schema();
    assert_eq!(schema.len(), 4);

    let max_speed_param = schema.iter().find(|p| p.name == "MaxSpeed").unwrap();
    assert_eq!(max_speed_param.parameter_type, "Double");
    assert_eq!(max_speed_param.default_value.as_ref().unwrap(), "200.0");
}

#[test]
fn test_parameter_resolution() {
    let mut parameters = ParameterMap::new();
    parameters.insert("TestParam".to_string(), "42.0".to_string());

    let value: Double = Value::Parameter("TestParam".to_string());
    let resolved = value.resolve(&parameters).unwrap();
    assert_eq!(resolved.as_str().parse::<f64>().unwrap(), 42.0);
}

#[test]
fn test_catalog_vehicle_entity_name() {
    let catalog_vehicle = CatalogVehicle {
        name: "SportsCar".to_string(),
        vehicle_category: Value::Literal("car".to_string()),
        bounding_box: BoundingBox::default(),
        performance: CatalogPerformance {
            max_speed: Value::Literal(r(250.0)),
            max_acceleration: Value::Literal(r(15.0)),
            max_deceleration: Value::Literal(r(12.0)),
        },
        axles: CatalogAxles {
            front_axle: Some(CatalogFrontAxle {
                max_steering: Value::Literal(r(0.6)),
                wheel_diameter: Value::Literal(r(0.65)),
                track_width: Value::Literal(r(1.8)),
                position_x: Value::Literal(r(3.0)),
                position_z: Value::Literal(r(0.3)),
            }),
            rear_axle: CatalogRearAxle {
                max_steering: Value::Literal(r(0.0)),
                wheel_diameter: Value::Literal(r(0.65)),
                track_width: Value::Literal(r(1.8)),
                position_x: Value::Literal(r(0.0)),
                position_z: Value::Literal(r(0.3)),
            },
        },
        properties: None,
        parameter_declarations: None,
    };

    assert_eq!(catalog_vehicle.entity_name(), "SportsCar");
}

#[test]
fn test_catalog_vehicle_resolution() {
    let catalog_vehicle = CatalogVehicle {
        name: "TestVehicle".to_string(),
        vehicle_category: Value::Literal("car".to_string()),
        bounding_box: BoundingBox::default(),
        performance: CatalogPerformance {
            max_speed: Value::Parameter("MaxSpeedParam".to_string()),
            max_acceleration: Value::Literal(r(10.0)),
            max_deceleration: Value::Literal(r(8.0)),
        },
        axles: CatalogAxles {
            front_axle: Some(CatalogFrontAxle {
                max_steering: Value::Literal(r(0.5)),
                wheel_diameter: Value::Literal(r(0.6)),
                track_width: Value::Literal(r(1.7)),
                position_x: Value::Literal(r(2.8)),
                position_z: Value::Literal(r(0.25)),
            }),
            rear_axle: CatalogRearAxle {
                max_steering: Value::Literal(r(0.0)),
                wheel_diameter: Value::Literal(r(0.6)),
                track_width: Value::Literal(r(1.7)),
                position_x: Value::Literal(r(0.0)),
                position_z: Value::Literal(r(0.25)),
            },
        },
        properties: None,
        parameter_declarations: None,
    };

    let mut parameters = ParameterMap::new();
    parameters.insert("MaxSpeedParam".to_string(), "180.0".to_string());

    let resolved = catalog_vehicle.into_scenario_entity(parameters).unwrap();
    assert_eq!(lit(&resolved.performance.max_speed).unwrap(), 180.0);
    assert_eq!(resolved.name.as_literal().unwrap(), "TestVehicle");
}

#[test]
fn test_catalog_controller_parameter_schema() {
    let schema = CatalogController::parameter_schema();
    assert_eq!(schema.len(), 1);

    let controller_type_param = schema.iter().find(|p| p.name == "ControllerType").unwrap();
    assert_eq!(controller_type_param.parameter_type, "String");
    assert_eq!(
        controller_type_param.default_value.as_ref().unwrap(),
        "movement"
    );
}

#[test]
fn test_catalog_controller_entity_name() {
    let catalog_controller = CatalogController {
        name: "AIDriver".to_string(),
        controller_type: Some(Value::Literal("movement".to_string())),
        parameter_declarations: None,
        properties: None,
    };

    assert_eq!(catalog_controller.entity_name(), "AIDriver");
}

#[test]
fn test_catalog_controller_resolution() {
    let catalog_controller = CatalogController {
        name: "TestController".to_string(),
        controller_type: Some(Value::Parameter("ControllerTypeParam".to_string())),
        parameter_declarations: None,
        properties: None,
    };

    let mut parameters = ParameterMap::new();
    parameters.insert("ControllerTypeParam".to_string(), "lateral".to_string());

    let resolved = catalog_controller.into_scenario_entity(parameters).unwrap();
    assert_eq!(resolved.controller_type.unwrap(), ControllerType::Lateral);
    assert_eq!(resolved.name.as_literal().unwrap(), "TestController");
}

#[test]
fn test_catalog_controller_type_resolution() {
    let catalog_controller = CatalogController {
        name: "FlexController".to_string(),
        controller_type: Some(Value::Literal("longitudinal".to_string())),
        parameter_declarations: None,
        properties: None,
    };

    let parameters = ParameterMap::new();
    let resolved = catalog_controller.into_scenario_entity(parameters).unwrap();
    assert_eq!(
        resolved.controller_type.unwrap(),
        ControllerType::Longitudinal
    );
}

#[test]
fn test_catalog_pedestrian_parameter_schema() {
    let schema = CatalogPedestrian::parameter_schema();
    assert_eq!(schema.len(), 3);

    let pedestrian_category_param = schema
        .iter()
        .find(|p| p.name == "PedestrianCategory")
        .unwrap();
    assert_eq!(pedestrian_category_param.parameter_type, "String");
    assert_eq!(
        pedestrian_category_param.default_value.as_ref().unwrap(),
        "pedestrian"
    );

    let mass_param = schema.iter().find(|p| p.name == "Mass").unwrap();
    assert_eq!(mass_param.parameter_type, "Double");
    assert_eq!(mass_param.default_value.as_ref().unwrap(), "75.0");

    let role_param = schema.iter().find(|p| p.name == "Role").unwrap();
    assert_eq!(role_param.parameter_type, "String");
    assert_eq!(role_param.default_value.as_ref().unwrap(), "none");
}

#[test]
fn test_catalog_pedestrian_entity_name() {
    let catalog_pedestrian = CatalogPedestrian {
        name: "WalkingPerson".to_string(),
        pedestrian_category: Value::Literal("pedestrian".to_string()),
        mass: Value::Literal("75.0".to_string()),
        role: Some(Value::Literal("none".to_string())),
        model3d: None,
        bounding_box: BoundingBox::default(),
        properties: None,
        parameter_declarations: None,
    };

    assert_eq!(catalog_pedestrian.entity_name(), "WalkingPerson");
}

#[test]
fn test_catalog_pedestrian_resolution() {
    let catalog_pedestrian = CatalogPedestrian {
        name: "TestPedestrian".to_string(),
        pedestrian_category: Value::Parameter("PedestrianTypeParam".to_string()),
        mass: Value::Literal("75.0".to_string()),
        role: Some(Value::Literal("civil".to_string())),
        model3d: None,
        bounding_box: BoundingBox::default(),
        properties: None,
        parameter_declarations: None,
    };

    let mut parameters = ParameterMap::new();
    parameters.insert("PedestrianTypeParam".to_string(), "wheelchair".to_string());

    let resolved = catalog_pedestrian.into_scenario_entity(parameters).unwrap();
    assert_eq!(resolved.pedestrian_category, PedestrianCategory::Wheelchair);
    assert_eq!(resolved.name.as_literal().unwrap(), "TestPedestrian");
    assert_eq!(resolved.role.unwrap(), Role::Civil);
}

#[test]
fn test_catalog_misc_object_placeholder() {
    let catalog_misc_object = CatalogMiscObject {
        name: "TrafficCone".to_string(),
        mass: Value::Literal(r(5.0)),
        misc_object_category: MiscObjectCategory::Obstacle,
        model3d: None,
        bounding_box: BoundingBox::default(),
        properties: None,
        parameter_declarations: None,
    };

    assert_eq!(catalog_misc_object.entity_name(), "TrafficCone");

    let resolved = catalog_misc_object
        .into_scenario_entity(ParameterMap::new())
        .unwrap();
    assert_eq!(resolved, "MiscObject:TrafficCone");
}

#[test]
fn test_all_catalog_entity_schemas() {
    // Test that all entity types have valid parameter schemas
    let vehicle_schema = CatalogVehicle::parameter_schema();
    let controller_schema = CatalogController::parameter_schema();
    let pedestrian_schema = CatalogPedestrian::parameter_schema();
    let misc_object_schema = CatalogMiscObject::parameter_schema();

    // Should not panic and should return valid schemas
    assert!(vehicle_schema.len() >= 1);
    assert!(controller_schema.len() >= 1);
    assert!(pedestrian_schema.len() >= 3); // Has PedestrianCategory, Mass, Role
    assert!(misc_object_schema.len() >= 3);
}

