use openscenario::actions::movement::TrajectoryRef;
use openscenario::basic::{Double, Real};
use openscenario::positions::trajectory::{Trajectory, TrajectoryPosition};

fn r(x: f64) -> Real {
    Real::new(&format!("{:?}", x))
}

fn lit(v: &Double) -> Option<f64> {
    v.as_literal().map(|x| x.as_str().parse::<f64>().unwrap())
}

#[test]
fn test_trajectory_position_new() {
    let pos = TrajectoryPosition::new(r(50.0), TrajectoryRef::default());
    assert_eq!(lit(&pos.s).unwrap(), 50.0);
    assert!(pos.t.is_none());
    assert!(pos.orientation.is_none());
}

#[test]
fn test_trajectory_position_with_offset() {
    let pos = TrajectoryPosition::with_offset(r(100.0), r(-1.5), TrajectoryRef::default());
    assert_eq!(lit(&pos.s).unwrap(), 100.0);
    assert_eq!(lit(&pos.t.unwrap()).unwrap(), -1.5);
}

#[test]
fn test_trajectory_default_is_empty_polyline() {
    let traj = Trajectory::default();
    assert_eq!(traj.name.as_literal(), Some(&String::new()));
    assert!(!traj.closed);
    match &traj.shape.polyline {
        Some(p) => assert!(p.vertices.is_empty()),
        None => panic!("Expected Polyline shape"),
    }
}
