use openscenario::basic::{Double, Real, Value};
use openscenario::enums::PrecipitationType;
use openscenario::environment::{
    Environment, Fog, Precipitation, RoadCondition, Sun, TimeOfDay, Weather,
};

fn r(x: f64) -> Real {
    Real::new(&format!("{:?}", x))
}

fn lit(v: &Double) -> Option<f64> {
    v.as_literal().map(|x| x.as_str().parse::<f64>().unwrap())
}

#[test]
fn test_environment_creation() {
    let environment = Environment {
        name: Value::literal("TestEnvironment".to_string()),
        parameter_declarations: None,
        time_of_day: Some(TimeOfDay {
            animation: Value::literal(false),
            date_time: "2021-12-10T11:00:00".to_string(),
        }),
        weather: Some(Weather::default()),
        road_condition: Some(RoadCondition {
            friction_scale_factor: Double::literal(r(1.0)),
            wetness: None,
            properties: None,
        }),
    };

    assert_eq!(environment.name.as_literal().unwrap(), "TestEnvironment");
    assert_eq!(
        environment.time_of_day.as_ref().unwrap().date_time,
        "2021-12-10T11:00:00"
    );
    assert!(
        !environment
            .time_of_day
            .as_ref()
            .unwrap()
            .animation
            .as_literal()
            .unwrap()
    );
}
#[test]
fn test_custom_rain_weather() {
    let w = Weather {
        sun: Some(Sun {
            intensity: Some(Double::literal(r(0.3))),
            azimuth: Double::literal(r(3.14)),
            elevation: Double::literal(r(0.5)),
            illuminance: None,
        }),
        fog: Some(Fog {
            visual_range: Double::literal(r(500.0)),
            bounding_box: None,
        }),
        precipitation: Some(Precipitation {
            precipitation_type: PrecipitationType::Rain,
            intensity: None,
            precipitation_intensity: Some(Double::literal(r(0.8))),
        }),
        ..Default::default()
    };
    assert_eq!(
        w.precipitation.as_ref().unwrap().precipitation_type,
        PrecipitationType::Rain
    );
    assert_eq!(
        w.precipitation
            .as_ref()
            .unwrap()
            .precipitation_intensity
            .as_ref()
            .unwrap()
            .as_literal().map(|x| x.as_str().parse::<f64>().unwrap()),
        Some(0.8)
    );
    assert_eq!(
        lit(&w.fog.as_ref().unwrap().visual_range),
        Some(500.0)
    );
}
