use openscenario::basic::{resolve_parameter, Double, Int, OSString, Real, Value};
use openscenario::catalogs::environments::{CatalogEnvironment, CatalogFog, CatalogWeather};
use openscenario::catalogs::entities::{
    CatalogController, CatalogEntity, CatalogPedestrian, CatalogPerformance, CatalogRearAxle,
    CatalogAxles, CatalogVehicle,
};
use openscenario::catalogs::trajectories::{
    CatalogClothoid, CatalogNurbs, CatalogTrajectory, CatalogTrajectoryShape,
};
use openscenario::controllers::{
    Controller, ControllerCatalogReference, ObjectController, ObjectControllerField,
};
use openscenario::entities::vehicle::Vehicle;
use openscenario::entities::{Entities, ScenarioObject};
use openscenario::enums::{ControllerType, PedestrianCategory, RouteStrategy, VehicleCategory};
use openscenario::error::Error;
use openscenario::geometry::BoundingBox;
use openscenario::params::ParameterMap;
use openscenario::validation::{
    classify_error_type, convert_errors, trim, Diagnostic, ValidationError,
};

fn r(x: f64) -> Real {
    Real::new(&format!("{:?}", x))
}

fn text(v: &Double) -> String {
    v.as_literal().unwrap().as_str().to_string()
}

fn params(pairs: &[(&str, &str)]) -> ParameterMap {
    let mut m = ParameterMap::new();
    for (k, v) in pairs {
        m.insert(k.to_string(), v.to_string());
    }
    m
}

#[test]
fn parameter_map_reads_what_was_written_last() {
    let mut m = params(&[("a", "1"), ("b", "2")]);
    assert_eq!(m.get("a"), Some("1".to_string()));
    m.insert("a".to_string(), "3".to_string());
    assert_eq!(m.get("a"), Some("3".to_string()));
    assert_eq!(m.get("b"), Some("2".to_string()));
    assert_eq!(m.get("c"), None);
    assert_eq!(m.len(), 2);
    assert_eq!(m.names(), vec!["a".to_string(), "b".to_string()]);
}

#[test]
fn literal_resolves_to_itself_whatever_is_assigned() {
    let v: Double = Value::Literal(r(2.5));
    assert_eq!(v.resolve(&ParameterMap::new()).unwrap().as_str(), "2.5");
    assert_eq!(v.resolve(&params(&[("x", "9")])).unwrap().as_str(), "2.5");
}

#[test]
fn parameter_resolves_to_its_assigned_value() {
    let v: Int = Value::Parameter("n".to_string());
    assert_eq!(v.resolve(&params(&[("n", "-42")])).unwrap(), -42);
    let mut m = params(&[("n", "1")]);
    m.insert("n".to_string(), "7".to_string());
    assert_eq!(v.resolve(&m).unwrap(), 7);
}

#[test]
fn unassigned_parameter_names_the_assigned_ones() {
    let v: Double = Value::Parameter("speed".to_string());
    match v.resolve(&params(&[("a", "1"), ("b", "2")])) {
        Err(Error::ParameterNotFound { name, available }) => {
            assert_eq!(name, "speed");
            assert_eq!(available, vec!["a".to_string(), "b".to_string()]);
        }
        other => panic!("unexpected {:?}", other),
    }
}

#[test]
fn unparsable_parameter_text_is_a_parse_error() {
    let v: Int = Value::Parameter("n".to_string());
    match v.resolve(&params(&[("n", "4.5")])) {
        Err(Error::ParseError { value, target }) => {
            assert_eq!(value, "4.5");
            assert_eq!(target, "int");
        }
        other => panic!("unexpected {:?}", other),
    }
    let d: Double = Value::Parameter("d".to_string());
    assert!(matches!(d.resolve(&params(&[("d", "fast")])), Err(Error::ParseError { .. })));
    assert_eq!(d.resolve(&params(&[("d", "1e3")])).unwrap().as_str(), "1e3");
}

#[test]
fn expressions_are_not_resolved() {
    let v: Double = Value::Expression("${a + 1}".to_string());
    match v.resolve(&ParameterMap::new()) {
        Err(Error::UnresolvedExpression { expression }) => assert_eq!(expression, "${a + 1}"),
        other => panic!("unexpected {:?}", other),
    }
}

#[test]
fn resolved_literal_is_settled() {
    let v: Double = Value::Parameter("x".to_string());
    let out = v.resolve_to_literal(&params(&[("x", "3.0")])).unwrap();
    assert_eq!(text(&out), "3.0");
    assert_eq!(out.resolve(&params(&[("x", "4.0")])).unwrap().as_str(), "3.0");
}

#[test]
fn names_with_a_dollar_read_the_parameter() {
    assert_eq!(resolve_parameter("$who", &params(&[("who", "Ego")])).unwrap(), "Ego");
    assert_eq!(resolve_parameter("Ego", &params(&[("Ego", "x")])).unwrap(), "Ego");
    match resolve_parameter("$who", &ParameterMap::new()) {
        Err(Error::ParameterNotFound { name, available }) => {
            assert_eq!(name, "who");
            assert!(available.is_empty());
        }
        other => panic!("unexpected {:?}", other),
    }
}

#[test]
fn strict_validation_refines_validation() {
    let controller = || Controller::new("C".to_string(), ControllerType::Movement);
    let reference = || ControllerCatalogReference::new("cat".to_string(), "entry".to_string());
    let cases = vec![
        ObjectController { name: None, controller: Some(controller()), catalog_reference: None },
        ObjectController { name: None, controller: None, catalog_reference: Some(reference()) },
        ObjectController { name: None, controller: None, catalog_reference: None },
        ObjectController { name: None, controller: Some(controller()), catalog_reference: Some(reference()) },
    ];
    for oc in &cases {
        if oc.validate_strict().is_ok() {
            assert!(oc.validate().is_ok());
        }
        let empty = oc.controller.is_none() && oc.catalog_reference.is_none();
        assert_eq!(oc.validate().is_ok() && oc.validate_strict().is_err(), empty);
    }
    assert_eq!(
        cases[3].validate().unwrap_err(),
        "ObjectController must contain at most one of Controller or CatalogReference, found both"
    );
    assert_eq!(
        cases[3].validate_strict().unwrap_err(),
        "ObjectController must contain exactly one of Controller or CatalogReference, found both"
    );
    assert_eq!(
        cases[2].validate_strict().unwrap_err(),
        "ObjectController must contain exactly one of Controller or CatalogReference, found neither"
    );
}

#[test]
fn object_controller_from_fields() {
    let controller = || Controller::new("C".to_string(), ControllerType::Lateral);
    let reference = || ControllerCatalogReference::new("cat".to_string(), "entry".to_string());
    let name = || OSString::literal("n".to_string());

    let oc = ObjectController::from_fields(vec![
        ObjectControllerField::Name(name()),
        ObjectControllerField::Controller(controller()),
    ])
    .unwrap();
    assert_eq!(oc.name, Some(name()));
    assert!(oc.controller.is_some());
    assert!(oc.validate().is_ok());

    let empty = ObjectController::from_fields(Vec::new()).unwrap();
    assert!(empty.controller.is_none() && empty.catalog_reference.is_none());

    assert_eq!(
        ObjectController::from_fields(vec![
            ObjectControllerField::Controller(controller()),
            ObjectControllerField::Name(name()),
            ObjectControllerField::Controller(controller()),
        ])
        .unwrap_err(),
        "duplicate field `Controller`"
    );
    assert_eq!(
        ObjectController::from_fields(vec![
            ObjectControllerField::Name(name()),
            ObjectControllerField::Name(name()),
        ])
        .unwrap_err(),
        "duplicate field `name`"
    );
    assert!(ObjectController::from_fields(vec![
        ObjectControllerField::Controller(controller()),
        ObjectControllerField::CatalogReference(reference()),
    ])
    .is_err());
}

#[test]
fn trimming_is_idempotent() {
    assert_eq!(trim("  \t hello world \n"), "hello world");
    assert_eq!(trim(&trim("\u{a0} x \u{3000}")), trim("\u{a0} x \u{3000}"));
    assert_eq!(trim("   "), "");
    assert_eq!(trim(""), "");
}

#[test]
fn classification_takes_the_first_matching_class() {
    assert_eq!(classify_error_type("This element is not expected."), "ElementNotAllowed");
    assert_eq!(classify_error_type("attribute not allowed; type missing"), "ElementNotAllowed");
    assert_eq!(classify_error_type("The attribute 'name' is required"), "MissingRequired");
    assert_eq!(classify_error_type("'x' is not valid"), "InvalidValue");
    assert_eq!(classify_error_type("wrong type"), "TypeMismatch");
    assert_eq!(classify_error_type("something else"), "ValidationError");
}

#[test]
fn diagnostics_convert_to_validation_errors() {
    let errors = convert_errors(vec![
        Diagnostic { message: Some("  Element 'X': This element is not expected.\n".to_string()), line: Some(3), col: Some(7) },
        Diagnostic { message: None, line: Some(5), col: None },
        Diagnostic { message: Some("odd".to_string()), line: None, col: None },
    ]);
    assert_eq!(errors.len(), 3);
    assert_eq!(
        errors[0],
        ValidationError {
            line: Some(3),
            column: Some(7),
            message: "Element 'X': This element is not expected.".to_string(),
            error_type: "ElementNotAllowed".to_string(),
        }
    );
    assert_eq!(errors[1].message, "Unknown error");
    assert_eq!(errors[0].to_string(), "Line 3:7: Element 'X': This element is not expected. (ElementNotAllowed)");
    assert_eq!(errors[1].to_string(), "Line 5: Unknown error (ValidationError)");
    assert_eq!(errors[2].to_string(), "Line ?: odd (ValidationError)");
}

#[test]
fn enum_names_round_trip() {
    for c in VehicleCategory::all() {
        assert_eq!(c.to_string().parse::<VehicleCategory>().unwrap(), c);
    }
    for s in RouteStrategy::all() {
        assert_eq!(s.to_string().parse::<RouteStrategy>().unwrap(), s);
    }
    assert_eq!(
        "plane".parse::<VehicleCategory>().unwrap_err(),
        "Invalid VehicleCategory: plane"
    );
}

#[test]
fn find_object_finds_the_first_of_a_name() {
    let mut entities = Entities::new();
    entities.add_object(ScenarioObject::new_vehicle("Ego".to_string(), Vehicle::new_car("first".to_string())));
    entities.add_object(ScenarioObject::new_vehicle("Other".to_string(), Vehicle::default()));
    entities.add_object(ScenarioObject::new_vehicle("Ego".to_string(), Vehicle::new_truck("second".to_string())));
    let found = entities.find_object("Ego").unwrap();
    assert_eq!(found.vehicle.as_ref().unwrap().name.as_literal().unwrap(), "first");
    assert!(entities.find_object("ego").is_none());
}

fn sample_vehicle(category: OSString, max_speed: Double) -> CatalogVehicle {
    let lit = |x: f64| Value::Literal(r(x));
    CatalogVehicle {
        name: "$vehicleName".to_string(),
        vehicle_category: category,
        bounding_box: BoundingBox::default(),
        performance: CatalogPerformance {
            max_speed,
            max_acceleration: lit(5.0),
            max_deceleration: Value::Parameter("decel".to_string()),
        },
        axles: CatalogAxles {
            front_axle: None,
            rear_axle: CatalogRearAxle {
                max_steering: lit(0.0),
                wheel_diameter: lit(0.6),
                track_width: lit(1.7),
                position_x: lit(0.0),
                position_z: lit(0.3),
            },
        },
        properties: None,
        parameter_declarations: None,
    }
}

#[test]
fn catalog_vehicle_resolves_its_parameters() {
    let v = sample_vehicle(Value::Parameter("cat".to_string()), Value::Literal(r(40.0)));
    let p = params(&[("vehicleName", "Bus1"), ("cat", "bus"), ("decel", "7.5")]);
    let out = v.into_scenario_entity(p).unwrap();
    assert_eq!(out.name.as_literal().unwrap(), "Bus1");
    assert_eq!(out.vehicle_category, VehicleCategory::Bus);
    assert_eq!(text(&out.performance.max_speed), "40.0");
    assert_eq!(text(&out.performance.max_deceleration), "7.5");
    assert!(out.axles.front_axle.is_none());
    assert_eq!(text(&out.axles.rear_axle.track_width), "1.7");
}

#[test]
fn catalog_vehicle_errors() {
    let v = sample_vehicle(Value::Literal("car".to_string()), Value::Literal(r(40.0)));
    match v.into_scenario_entity(params(&[("other", "x")])) {
        Err(Error::ParameterNotFound { name, available }) => {
            assert_eq!(name, "vehicleName");
            assert_eq!(available, vec!["other".to_string()]);
        }
        other => panic!("unexpected {:?}", other),
    }
    let v = sample_vehicle(Value::Literal("plane".to_string()), Value::Literal(r(40.0)));
    match v.into_scenario_entity(params(&[("vehicleName", "V")])) {
        Err(Error::InvalidValue { field, value, expected }) => {
            assert_eq!(field, "vehicle_category");
            assert_eq!(value, "plane");
            assert_eq!(expected, "must be one of: car, truck, bus, motorbike, bicycle, train, tram");
        }
        other => panic!("unexpected {:?}", other),
    }
    let v = sample_vehicle(Value::Literal("car".to_string()), Value::Literal(r(40.0)));
    match v.into_scenario_entity(params(&[("vehicleName", "V")])) {
        Err(Error::ParameterNotFound { name, .. }) => assert_eq!(name, "decel"),
        other => panic!("unexpected {:?}", other),
    }
}

#[test]
fn catalog_controller_refuses_the_all_type() {
    let c = CatalogController {
        name: "C".to_string(),
        controller_type: Some(Value::Literal("all".to_string())),
        parameter_declarations: None,
        properties: None,
    };
    match c.into_scenario_entity(ParameterMap::new()) {
        Err(Error::CatalogError { message }) => assert_eq!(message, "Invalid controller type: all"),
        other => panic!("unexpected {:?}", other),
    }
}

#[test]
fn catalog_pedestrian_mass_must_be_a_number() {
    let p = |mass: &str| CatalogPedestrian {
        name: "P".to_string(),
        pedestrian_category: Value::Literal("pedestrian".to_string()),
        mass: Value::Literal(mass.to_string()),
        role: None,
        model3d: None,
        bounding_box: BoundingBox::default(),
        properties: None,
        parameter_declarations: None,
    };
    let ok = p("80.5").into_scenario_entity(ParameterMap::new()).unwrap();
    assert_eq!(text(&ok.mass), "80.5");
    assert_eq!(ok.pedestrian_category, PedestrianCategory::Pedestrian);
    match p("heavy").into_scenario_entity(ParameterMap::new()) {
        Err(Error::CatalogError { message }) => {
            assert_eq!(message, "Failed to parse mass value: invalid float literal")
        }
        other => panic!("unexpected {:?}", other),
    }
    match p("").into_scenario_entity(ParameterMap::new()) {
        Err(Error::CatalogError { message }) => {
            assert_eq!(message, "Failed to parse mass value: cannot parse float from empty string")
        }
        other => panic!("unexpected {:?}", other),
    }
}

#[test]
fn nurbs_order_must_not_be_negative() {
    let t = CatalogTrajectory::new("N".to_string(), CatalogTrajectoryShape::Nurbs(CatalogNurbs::new(Value::Parameter("o".to_string()))));
    match t.resolve_trajectory(&params(&[("o", "-2")])) {
        Err(Error::InvalidValue { field, value, expected }) => {
            assert_eq!(field, "Nurbs.order");
            assert_eq!(value, "-2");
            assert_eq!(expected, "NURBS order must be a non-negative integer");
        }
        other => panic!("unexpected {:?}", other),
    }
    let ok = t.resolve_trajectory(&params(&[("o", "4")])).unwrap();
    assert_eq!(ok.shape.nurbs.unwrap().order.as_literal(), Some(&4u32));
}

#[test]
fn clothoid_length_parameter_must_be_assigned() {
    let t = CatalogTrajectory::new(
        "C".to_string(),
        CatalogTrajectoryShape::Clothoid(CatalogClothoid::new(
            Value::Literal(r(0.1)),
            Value::Literal(r(0.0)),
            Value::Parameter("len".to_string()),
        )),
    );
    assert!(matches!(
        t.resolve_trajectory(&ParameterMap::new()),
        Err(Error::ParameterNotFound { .. })
    ));
}

#[test]
fn environment_weather_numbers_resolve_where_assigned() {
    let mut weather = CatalogWeather::rainy(Value::Parameter("rain".to_string()));
    weather.fog = Some(CatalogFog { visual_range: Value::Parameter("vis".to_string()), bounding_box: None });
    weather.temperature = Some(Value::Parameter("temp".to_string()));
    let mut env = CatalogEnvironment::new("E".to_string());
    env.set_weather(weather);
    let out = env.resolve_environment(&params(&[("vis", "500"), ("temp", "290.5")])).unwrap();
    let w = out.weather.unwrap();
    assert_eq!(w.fog.unwrap().visual_range, Value::Literal(Real::new("500")));
    assert_eq!(w.temperature, Some(Value::Literal(Real::new("290.5"))));
    assert_eq!(
        w.precipitation.unwrap().precipitation_intensity,
        Some(Value::Parameter("rain".to_string()))
    );
    assert_eq!(text(&w.sun.unwrap().azimuth), "0.0");
}

#[test]
fn pedestrian_role_and_controller_type_mappings() {
    let ped = |role: &str| CatalogPedestrian {
        name: "$who".to_string(),
        pedestrian_category: Value::Literal("pedestrian".to_string()),
        mass: Value::Literal("70".to_string()),
        role: Some(Value::Literal(role.to_string())),
        model3d: None,
        bounding_box: BoundingBox::default(),
        properties: None,
        parameter_declarations: None,
    };
    let ok = ped("police").into_scenario_entity(params(&[("who", "Walker")])).unwrap();
    assert_eq!(ok.role, Some(openscenario::enums::Role::Police));
    assert_eq!(ok.name.as_literal().unwrap(), "Walker");
    match ped("Police").into_scenario_entity(params(&[("who", "Walker")])) {
        Err(Error::CatalogError { message }) => assert_eq!(message, "Invalid role: Police"),
        other => panic!("unexpected {:?}", other),
    }
    match ped("police").into_scenario_entity(ParameterMap::new()) {
        Err(Error::CatalogError { message }) => {
            assert_eq!(message, "Parameter 'who' not found in substitution map")
        }
        other => panic!("unexpected {:?}", other),
    }
    let c = CatalogController {
        name: "C".to_string(),
        controller_type: Some(Value::Literal("appearance".to_string())),
        parameter_declarations: None,
        properties: None,
    };
    assert_eq!(c.into_scenario_entity(ParameterMap::new()).unwrap().controller_type, Some(ControllerType::Appearance));
}
