use openscenario::basic::{
    Double, OSString, ParameterDeclaration, ParameterDeclarations, Real, Value,
};
use openscenario::catalogs::entities::CatalogEntity;
use openscenario::catalogs::environments::{
    CatalogEnvironment, CatalogFog, CatalogRoadCondition, CatalogTimeOfDay, CatalogWeather,
};
use openscenario::enums::{CloudState, ParameterType, PrecipitationType, Wetness};
use openscenario::params::ParameterMap;

fn r(x: f64) -> Real {
    Real::new(&format!("{:?}", x))
}

fn lit(v: &Double) -> Option<f64> {
    v.as_literal().map(|x| x.as_str().parse::<f64>().unwrap())
}

#[test]
fn test_catalog_environment_creation() {
    let environment = CatalogEnvironment::new("TestEnvironment".to_string());

    assert_eq!(environment.name, "TestEnvironment");
    assert!(environment.parameter_declarations.is_none());
    assert!(environment.time_of_day.is_none());
}

#[test]
fn test_catalog_weather_presets() {
    let sunny = CatalogWeather::sunny();
    let rainy = CatalogWeather::rainy(Value::Literal(r(0.8)));

    assert_eq!(sunny.cloud_state, Some(CloudState::Free));
    assert_eq!(
        sunny.sun.as_ref().unwrap().intensity.as_ref().unwrap().as_literal().unwrap().as_str().parse::<f64>().unwrap(),
        1.0
    );
    assert_eq!(
        sunny
            .precipitation
            .as_ref()
            .unwrap()
            .precipitation_type
            .as_literal()
            .unwrap(),
        "dry"
    );

    assert_eq!(rainy.cloud_state, Some(CloudState::Rainy));
    assert_eq!(
        rainy
            .precipitation
            .as_ref()
            .unwrap()
            .precipitation_type
            .as_literal()
            .unwrap(),
        "rain"
    );
    assert_eq!(
        rainy
            .precipitation
            .as_ref()
            .unwrap()
            .intensity
            .as_ref()
            .unwrap()
            .as_literal()
            .unwrap().as_str().parse::<f64>().unwrap(),
        0.8
    );
}

#[test]
fn test_time_of_day_configuration() {
    let tod1 = CatalogTimeOfDay::new(Value::Parameter("startTime".to_string()));
    let tod2 = CatalogTimeOfDay::with_animation(
        Value::Literal("2021-06-21T06:00:00".to_string()),
        Value::Literal(true),
    );

    assert!(matches!(tod1.date_time, Value::Parameter(_)));
    assert_eq!(tod1.animation.as_literal().unwrap(), &false);

    assert_eq!(tod2.date_time.as_literal().unwrap(), "2021-06-21T06:00:00");
    assert_eq!(tod2.animation.as_literal().unwrap(), &true);
}

#[test]
fn test_environment_with_parameters() {
    let param_decl = ParameterDeclarations {
        parameter_declarations: vec![ParameterDeclaration {
            name: OSString::literal("visibility".to_string()),
            parameter_type: ParameterType::Double,
            value: OSString::literal("10000.0".to_string()),
            constraint_groups: Vec::new(),
        }],
    };

    let mut environment =
        CatalogEnvironment::with_parameters("ParameterizedEnvironment".to_string(), param_decl);

    // Set fog with parameterized visibility
    let fog = CatalogFog {
        visual_range: Value::Parameter("visibility".to_string()),
        bounding_box: None,
    };
    let mut weather = CatalogWeather::default();
    weather.fog = Some(fog);
    environment.set_weather(weather);

    assert_eq!(environment.name, "ParameterizedEnvironment");
    assert!(environment.parameter_declarations.is_some());
    assert!(matches!(
        environment.weather.as_ref().unwrap().fog.as_ref().unwrap().visual_range,
        Value::Parameter(_)
    ));
}

#[test]
fn test_road_condition_parameters() {
    let road_condition = CatalogRoadCondition {
        friction_scale_factor: Value::Parameter("frictionFactor".to_string()),
        wetness: Some(Wetness::Moist),
        properties: None,
    };

    assert!(matches!(
        road_condition.friction_scale_factor,
        Value::Parameter(_)
    ));
    assert_eq!(road_condition.wetness, Some(Wetness::Moist));
}

#[test]
fn test_resolve_environment() {
    let mut catalog_env = CatalogEnvironment::new("TestEnvironment".to_string());

    // Set up a sunny day environment
    catalog_env.set_weather(CatalogWeather::sunny());
    catalog_env.set_time_of_day(CatalogTimeOfDay::new(Value::Literal(
        "2021-06-21T12:00:00".to_string(),
    )));

    let scenario_env = catalog_env
        .resolve_environment(&ParameterMap::new())
        .unwrap();

    assert_eq!(scenario_env.name.as_literal().unwrap(), "TestEnvironment");
    assert_eq!(
        scenario_env.time_of_day.as_ref().unwrap().date_time,
        "2021-06-21T12:00:00"
    );
    assert_eq!(
        scenario_env.weather.as_ref().unwrap().cloud_state,
        Some(CloudState::Free)
    );
    assert_eq!(
        scenario_env
            .weather
            .as_ref()
            .unwrap()
            .sun
            .as_ref()
            .unwrap()
            .intensity
            .as_ref()
            .unwrap()
            .as_literal()
            .unwrap().as_str().parse::<f64>().unwrap(),
        1.0
    );
}

#[test]
fn test_catalog_environment_into_scenario_entity() {

    let mut catalog_env = CatalogEnvironment::new("Rainy".to_string());
    catalog_env.set_weather(CatalogWeather::rainy(Value::Parameter(
        "rainIntensity".to_string(),
    )));
    catalog_env.set_road_condition(CatalogRoadCondition {
        friction_scale_factor: Value::Parameter("friction".to_string()),
        wetness: Some(Wetness::Moist),
        properties: None,
    });

    let mut parameters = ParameterMap::new();
    parameters.insert("friction".to_string(), "0.6".to_string());

    let resolved = catalog_env.into_scenario_entity(parameters).unwrap();

    assert_eq!(resolved.name.as_literal().unwrap(), "Rainy");
    let weather = resolved.weather.as_ref().unwrap();
    assert_eq!(
        weather
            .precipitation
            .as_ref()
            .unwrap()
            .precipitation_type,
        PrecipitationType::Rain
    );
    assert_eq!(weather.fog.as_ref().unwrap().visual_range, Value::Literal(r(5000.0)));

    let road_condition = resolved.road_condition.as_ref().unwrap();
    assert_eq!(
        lit(&road_condition.friction_scale_factor).unwrap(),
        0.6
    );
    assert_eq!(road_condition.wetness, Some(Wetness::Moist));
}

#[test]
fn environments_test_defaults() {
    let environment = CatalogEnvironment::new("DefaultCatalogEnvironment".to_string());
    let weather = CatalogWeather::default();

    assert_eq!(environment.name, "DefaultCatalogEnvironment");
    assert!(environment.time_of_day.is_none());
    assert!(weather.cloud_state.is_none());
    assert!(weather.sun.is_none());
}
