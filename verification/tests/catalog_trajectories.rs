use openscenario::basic::{
    Double, OSString, ParameterDeclaration, ParameterDeclarations, Real, Value,
};
use openscenario::catalogs::entities::CatalogEntity;
use openscenario::catalogs::trajectories::{
    CatalogClothoid, CatalogNurbs, CatalogPolyline, CatalogTrajectory, CatalogTrajectoryShape,
    CatalogVertex, TrajectoryCatalog,
};
use openscenario::enums::ParameterType;
use openscenario::params::ParameterMap;
use openscenario::positions::Position;

fn r(x: f64) -> Real {
    Real::new(&format!("{:?}", x))
}

fn lit(v: &Double) -> Option<f64> {
    v.as_literal().map(|x| x.as_str().parse::<f64>().unwrap())
}

#[test]
fn test_trajectory_catalog_creation() {
    let catalog = TrajectoryCatalog::new(1, 2);

    assert_eq!(catalog.rev_major.as_literal().unwrap(), &1);
    assert_eq!(catalog.rev_minor.as_literal().unwrap(), &2);
    assert!(catalog.trajectories.is_empty());
}

#[test]
fn test_catalog_trajectory_creation() {
    let shape = CatalogTrajectoryShape::Polyline(CatalogPolyline {
        vertices: Vec::new(),
    });
    let trajectory = CatalogTrajectory::new("TestTrajectory".to_string(), shape);

    assert_eq!(trajectory.name, "TestTrajectory");
    assert_eq!(trajectory.closed.as_literal(), Some(&false));
    assert!(trajectory.parameter_declarations.is_none());
}

#[test]
fn test_trajectory_catalog_operations() {
    let mut catalog = TrajectoryCatalog::new(1, 0);

    let shape1 = CatalogTrajectoryShape::Polyline(CatalogPolyline {
        vertices: Vec::new(),
    });
    let trajectory1 = CatalogTrajectory::new("Trajectory1".to_string(), shape1);

    let shape2 = CatalogTrajectoryShape::Clothoid(CatalogClothoid::new(
        Value::Literal(r(0.1)),
        Value::Literal(r(0.01)),
        Value::Literal(r(100.0)),
    ));
    let trajectory2 = CatalogTrajectory::new("Trajectory2".to_string(), shape2);

    catalog.add_trajectory(trajectory1);
    catalog.add_trajectory(trajectory2);

    assert_eq!(catalog.trajectories.len(), 2);
    assert!(catalog.find_trajectory("Trajectory1").is_some());
    assert!(catalog.find_trajectory("Trajectory2").is_some());
    assert!(catalog.find_trajectory("NonExistent").is_none());

    let names = catalog.trajectory_names();
    assert!(names.contains(&"Trajectory1"));
    assert!(names.contains(&"Trajectory2"));
}

#[test]
fn test_catalog_polyline() {
    let pos1 = Position::default();
    let pos2 = Position::default();

    let mut polyline = CatalogPolyline::from_positions(vec![pos1, pos2]);

    assert_eq!(polyline.vertices.len(), 2);

    let pos3 = Position::default();
    polyline.add_vertex(pos3, Some(Value::Literal(r(10.0))));

    assert_eq!(polyline.vertices.len(), 3);
    assert!(polyline.vertices[2].time.is_some());
}

#[test]
fn test_catalog_clothoid() {
    let clothoid = CatalogClothoid::new(
        Value::Literal(r(0.1)),
        Value::Parameter("curvature_rate".to_string()),
        Value::Literal(r(50.0)),
    );

    assert_eq!(lit(&clothoid.curvature).unwrap(), 0.1);
    assert!(matches!(
        clothoid.curvature_dot,
        Some(Value::Parameter(_))
    ));
    assert_eq!(lit(&clothoid.length).unwrap(), 50.0);
}

#[test]
fn test_catalog_nurbs() {
    let mut nurbs = CatalogNurbs::new(Value::Literal(3));

    let pos1 = Position::default();
    let pos2 = Position::default();

    nurbs.add_control_point(pos1, Some(Value::Literal(r(1.0))));
    nurbs.add_control_point(pos2, None);

    nurbs.add_knot(Value::Literal(r(0.0)));
    nurbs.add_knot(Value::Literal(r(1.0)));

    assert_eq!(nurbs.order.as_literal().unwrap(), &3);
    assert_eq!(nurbs.control_points.len(), 2);
    assert_eq!(nurbs.knots.len(), 2);
    assert!(nurbs.control_points[0].weight.is_some());
    assert!(nurbs.control_points[1].weight.is_none());
}

#[test]
fn test_trajectory_with_parameters() {
    let param_decl = ParameterDeclarations {
        parameter_declarations: vec![ParameterDeclaration {
            name: OSString::literal("length".to_string()),
            parameter_type: ParameterType::Double,
            value: OSString::literal("100.0".to_string()),
            constraint_groups: Vec::new(),
        }],
    };

    let shape = CatalogTrajectoryShape::Clothoid(CatalogClothoid::new(
        Value::Literal(r(0.0)),
        Value::Literal(r(0.01)),
        Value::Parameter("length".to_string()),
    ));

    let trajectory = CatalogTrajectory::with_parameters(
        "ParameterizedTrajectory".to_string(),
        shape,
        param_decl,
    );

    assert_eq!(trajectory.name, "ParameterizedTrajectory");
    assert!(trajectory.parameter_declarations.is_some());

    match &trajectory.shape.shape {
        CatalogTrajectoryShape::Clothoid(clothoid) => {
            assert!(matches!(clothoid.length, Value::Parameter(_)));
        }
        _ => panic!("Expected clothoid shape"),
    }
}

#[test]
fn test_closed_trajectory() {
    let shape = CatalogTrajectoryShape::Polyline(CatalogPolyline {
        vertices: Vec::new(),
    });
    let trajectory =
        CatalogTrajectory::with_closed("ClosedTrajectory".to_string(), shape, true);

    assert_eq!(
        trajectory.closed.as_literal().unwrap(),
        &true
    );
}

#[test]
fn test_resolve_trajectory_polyline() {
    let shape = CatalogTrajectoryShape::Polyline(CatalogPolyline {
        vertices: vec![
            CatalogVertex {
                time: Some(Value::Literal(r(0.0))),
                position: Position::default(),
            },
            CatalogVertex {
                time: Some(Value::Literal(r(5.0))),
                position: Position::default(),
            },
        ],
    });

    let catalog_trajectory = CatalogTrajectory::new("TestTrajectory".to_string(), shape);
    let scenario_trajectory = catalog_trajectory
        .resolve_trajectory(&ParameterMap::new())
        .unwrap();

    assert_eq!(
        scenario_trajectory.name.as_literal().unwrap(),
        "TestTrajectory"
    );
    assert_eq!(scenario_trajectory.closed.as_literal(), Some(&false));

    let polyline = scenario_trajectory
        .shape
        .polyline
        .as_ref()
        .expect("expected polyline shape");
    assert_eq!(polyline.vertices.len(), 2);
    assert_eq!(polyline.vertices[1].time, Some(Value::Literal(r(5.0))));
}

#[test]
fn test_resolve_trajectory_nurbs_and_clothoid() {

    let mut nurbs = CatalogNurbs::new(Value::Literal(3));
    nurbs.add_control_point(Position::default(), Some(Value::Literal(r(1.0))));
    nurbs.add_control_point(Position::default(), None);
    nurbs.add_knot(Value::Literal(r(0.0)));
    nurbs.add_knot(Value::Literal(r(1.0)));

    let trajectory = CatalogTrajectory::new(
        "NurbsPath".to_string(),
        CatalogTrajectoryShape::Nurbs(nurbs),
    )
    .into_scenario_entity(ParameterMap::new())
    .unwrap();

    let resolved_nurbs = trajectory.shape.nurbs.as_ref().expect("expected NURBS shape");
    assert_eq!(resolved_nurbs.order.as_literal(), Some(&3u32));
    assert_eq!(resolved_nurbs.control_points.len(), 2);
    assert_eq!(resolved_nurbs.knots.len(), 2);
    assert!(trajectory.shape.polyline.is_none());

    let clothoid_trajectory = CatalogTrajectory::new(
        "ClothoidPath".to_string(),
        CatalogTrajectoryShape::Clothoid(CatalogClothoid::new(
            Value::Literal(r(0.1)),
            Value::Literal(r(0.01)),
            Value::Parameter("segmentLength".to_string()),
        )),
    );

    let mut parameters = ParameterMap::new();
    parameters.insert("segmentLength".to_string(), "42.0".to_string());

    let resolved = clothoid_trajectory
        .into_scenario_entity(parameters)
        .unwrap();
    let clothoid = resolved.shape.clothoid.as_ref().expect("expected clothoid");
    assert_eq!(lit(&clothoid.length), Some(42.0));
    assert_eq!(lit(&clothoid.curvature), Some(0.1));
}

#[test]
fn trajectories_test_defaults() {
    let catalog = TrajectoryCatalog::default();
    let trajectory = CatalogTrajectory::default();
    let polyline = CatalogPolyline {
        vertices: Vec::new(),
    };
    let clothoid = CatalogClothoid::new(
        Value::Literal(r(0.0)),
        Value::Literal(r(0.0)),
        Value::Literal(r(1.0)),
    );
    let nurbs = CatalogNurbs::new(Value::Literal(2));

    assert_eq!(catalog.rev_major.as_literal().unwrap(), &1);
    assert_eq!(trajectory.name, "DefaultCatalogTrajectory");
    assert!(polyline.vertices.is_empty());
    assert_eq!(lit(&clothoid.curvature).unwrap(), 0.0);
    assert_eq!(nurbs.order.as_literal().unwrap(), &2);
}
