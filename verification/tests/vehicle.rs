use openscenario::basic::{Double, Real, Value};
use openscenario::entities::axles::Axles;
use openscenario::entities::vehicle::{Performance, Vehicle};
use openscenario::enums::VehicleCategory;
use openscenario::geometry::BoundingBox;

fn r(x: f64) -> Real {
    Real::new(&format!("{:?}", x))
}

fn lit(v: &Double) -> Option<f64> {
    v.as_literal().map(|x| x.as_str().parse::<f64>().unwrap())
}

#[test]
fn test_vehicle_default() {
    let vehicle = Vehicle::default();

    assert_eq!(vehicle.name.as_literal().unwrap(), "DefaultVehicle");
    assert_eq!(vehicle.vehicle_category, VehicleCategory::Car);

    // Should have default bounding box
    assert_eq!(
        lit(&vehicle.bounding_box.dimensions.width).unwrap(),
        2.0
    );
}

#[test]
fn test_vehicle_creation() {
    let vehicle = Vehicle {
        name: Value::literal("TestCar".to_string()),
        vehicle_category: VehicleCategory::Car,
        role: None,
        mass: None,
        model3d: None,
        parameter_declarations: None,
        bounding_box: BoundingBox::default(),
        performance: Performance {
            max_speed: Double::literal(r(200.0)),
            max_acceleration: Double::literal(r(10.0)),
            max_acceleration_rate: None,
            max_deceleration: Double::literal(r(10.0)),
            max_deceleration_rate: None,
        },
        axles: Axles::default(),
        properties: None,
        trailer_hitch: None,
        trailer_coupler: None,
        trailer: None,
    };

    assert_eq!(vehicle.name.as_literal().unwrap(), "TestCar");
    assert_eq!(vehicle.vehicle_category, VehicleCategory::Car);
}

#[test]
fn test_vehicle_new_car() {
    let car = Vehicle::new_car("TestCar".to_string());

    assert_eq!(car.name.as_literal().unwrap(), "TestCar");
    assert_eq!(car.vehicle_category, VehicleCategory::Car);
    assert_eq!(car.axle_count(), 2);
}

#[test]
fn test_vehicle_new_truck() {
    let truck = Vehicle::new_truck("TestTruck".to_string());

    assert_eq!(truck.name.as_literal().unwrap(), "TestTruck");
    assert_eq!(truck.vehicle_category, VehicleCategory::Truck);
    assert_eq!(truck.axle_count(), 3); // Front + rear + additional
}

#[test]
fn test_vehicle_new_motorcycle() {
    let motorcycle = Vehicle::new_motorcycle("TestBike".to_string());

    assert_eq!(motorcycle.name.as_literal().unwrap(), "TestBike");
    assert_eq!(motorcycle.vehicle_category, VehicleCategory::Motorbike);
    assert_eq!(motorcycle.axle_count(), 2);
}

