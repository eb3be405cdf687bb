use openscenario::actions::movement::{Trajectory, TrajectoryRef};
use openscenario::basic::{Double, Real, Value};
use openscenario::geometry::Shape;
use openscenario::positions::trajectory::TrajectoryPosition;
use openscenario::positions::world::GeographicPosition;
use openscenario::positions::{Position, RelativeWorldPosition};

fn r(x: f64) -> Real {
    Real::new(&format!("{:?}", x))
}

fn lit(v: &Double) -> Option<f64> {
    v.as_literal().map(|x| x.as_str().parse::<f64>().unwrap())
}

#[test]
fn test_position_world_origin_selects_the_world_branch() {
    let pos = Position::world_origin();
    let world = pos
        .world_position
        .as_ref()
        .expect("world_origin must select the WorldPosition branch");
    assert_eq!(world.x, Value::Literal(r(0.0)));
    assert_eq!(world.y, Value::Literal(r(0.0)));
    assert!(pos.lane_position.is_none());
    assert!(pos.road_position.is_none());
    assert_ne!(pos, Position::empty());
}

#[test]
fn test_position_empty_has_all_none() {
    let pos = Position::empty();
    assert!(pos.world_position.is_none());
    assert!(pos.relative_world_position.is_none());
    assert!(pos.road_position.is_none());
    assert!(pos.lane_position.is_none());
    assert!(pos.trajectory_position.is_none());
    assert!(pos.geographic_position.is_none());
    assert!(pos.relative_object_position.is_none());
}

#[test]
fn test_position_trajectory_constructor() {
    let tp = TrajectoryPosition::new(
        r(10.0),
        TrajectoryRef::with_trajectory(Trajectory::new(
            "TestTrajectory",
            false,
            Shape::empty(),
        )),
    );
    let pos = Position::trajectory(tp.clone());
    assert!(pos.trajectory_position.is_some());
    assert!(pos.world_position.is_none());
}

#[test]
fn test_position_geographic_constructor() {
    let gp = GeographicPosition::new(r(48.0), r(11.0));
    let pos = Position::geographic(gp);
    assert!(pos.geographic_position.is_some());
    assert!(pos.world_position.is_none());
}

#[test]
fn test_relative_world_position_new() {
    let rwp = RelativeWorldPosition::new("Ego", r(1.0), r(2.0));
    assert_eq!(rwp.entity_ref.as_literal().unwrap(), "Ego");
    assert_eq!(lit(&rwp.dx).unwrap(), 1.0);
    assert!(rwp.dz.is_none());
}
