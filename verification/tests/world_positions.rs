use openscenario::basic::{Double, Real};
use openscenario::positions::world::{GeographicPosition, WorldPosition};

fn r(x: f64) -> Real {
    Real::new(&format!("{:?}", x))
}

fn lit(v: &Double) -> Option<f64> {
    v.as_literal().map(|x| x.as_str().parse::<f64>().unwrap())
}

#[test]
fn test_world_position_new() {
    let pos = WorldPosition::new(r(10.0), r(20.0));
    assert_eq!(lit(&pos.x).unwrap(), 10.0);
    assert_eq!(lit(&pos.y).unwrap(), 20.0);
    assert!(pos.z.is_none());
    assert!(pos.h.is_none());
}

#[test]
fn test_world_position_with_full_orientation() {
    let pos = WorldPosition::with_full_orientation(r(1.0), r(2.0), r(3.0), r(4.0), r(5.0), r(6.0));
    assert_eq!(lit(&pos.x).unwrap(), 1.0);
    assert_eq!(lit(&pos.z.unwrap()).unwrap(), 3.0);
    assert_eq!(lit(&pos.r.unwrap()).unwrap(), 6.0);
}

#[test]
fn test_geographic_position_new() {
    let pos = GeographicPosition::new(r(48.137), r(11.576));
    assert_eq!(lit(&pos.latitude.unwrap()).unwrap(), 48.137);
    assert_eq!(lit(&pos.longitude.unwrap()).unwrap(), 11.576);
    assert!(pos.height.is_none());
    assert!(pos.latitude_deg.is_none());
}

#[test]
fn test_geographic_position_at_coordinates() {
    let pos = GeographicPosition::at_coordinates(r(48.0), r(11.0), r(500.0), r(1.57));
    assert!(pos.height.is_some());
    assert!(pos.orientation.is_some());
}
