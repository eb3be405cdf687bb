use openscenario::basic::{OSString, ParameterDeclaration, ParameterDeclarations, Value};
use openscenario::catalogs::entities::CatalogEntity;
use openscenario::catalogs::routes::{CatalogRoute, RouteParameterAssignments, RouteWaypoint};
use openscenario::enums::{ParameterType, RouteStrategy};
use openscenario::params::ParameterMap;
use openscenario::positions::Position;

#[test]
fn test_catalog_route_creation() {
    let route = CatalogRoute::new("TestRoute".to_string());

    assert_eq!(route.name, "TestRoute");
    assert_eq!(route.closed.as_literal().unwrap(), &false);
    assert!(route.parameter_declarations.is_none());
    assert!(route.waypoints.is_empty());
}

#[test]
fn test_route_waypoints() {
    let mut route = CatalogRoute::new("WaypointRoute".to_string());

    let pos1 = Position::default();
    let pos2 = Position::default();

    route.add_position_waypoint(pos1, RouteStrategy::Shortest);

    let waypoint2 = RouteWaypoint::with_strategy(pos2, RouteStrategy::Fastest);
    route.add_waypoint(waypoint2);

    assert_eq!(route.waypoint_count(), 2);
    assert_eq!(route.waypoints[0].route_strategy, RouteStrategy::Shortest);
    assert_eq!(route.waypoints[1].route_strategy, RouteStrategy::Fastest);
}

#[test]
fn test_waypoint_creation() {
    let pos = Position::default();

    let waypoint1 = RouteWaypoint::new(pos.clone(), RouteStrategy::Fastest);
    let waypoint2 = RouteWaypoint::with_strategy(pos, RouteStrategy::Shortest);

    assert_eq!(waypoint1.route_strategy, RouteStrategy::Fastest);
    assert_eq!(waypoint2.route_strategy, RouteStrategy::Shortest);
}

#[test]
fn test_route_with_parameters() {
    let param_decl = ParameterDeclarations {
        parameter_declarations: vec![ParameterDeclaration {
            name: OSString::literal("targetSpeed".to_string()),
            parameter_type: ParameterType::Double,
            value: OSString::literal("50.0".to_string()),
            constraint_groups: Vec::new(),
        }],
    };

    let route = CatalogRoute::with_parameters("ParameterizedRoute".to_string(), param_decl);

    assert_eq!(route.name, "ParameterizedRoute");
    assert!(route.parameter_declarations.is_some());
    assert_eq!(
        route
            .parameter_declarations
            .as_ref()
            .unwrap()
            .parameter_declarations
            .len(),
        1
    );
}

#[test]
fn test_closed_route() {
    let route = CatalogRoute::with_closed("ClosedRoute".to_string(), true);

    assert_eq!(route.closed.as_literal().unwrap(), &true);
}

#[test]
fn test_parameter_assignments() {
    let pairs = vec![
        (
            Value::Literal("param1".to_string()),
            Value::Literal("value1".to_string()),
        ),
        (
            Value::Parameter("param2".to_string()),
            Value::Literal("value2".to_string()),
        ),
    ];

    let assignments = RouteParameterAssignments::from_pairs(pairs);

    assert_eq!(assignments.assignments.len(), 2);
    assert_eq!(
        assignments.assignments[0]
            .parameter_ref
            .as_literal()
            .unwrap(),
        "param1"
    );
    assert!(matches!(
        assignments.assignments[1].parameter_ref,
        Value::Parameter(_)
    ));
}

#[test]
fn test_catalog_route_into_scenario_entity() {

    let mut route = CatalogRoute::new("ResolvedRoute".to_string());
    route.closed = Value::Parameter("isClosed".to_string());
    route.add_waypoint(RouteWaypoint::with_strategy(
        Position::default(),
        RouteStrategy::Shortest,
    ));
    route.add_waypoint(RouteWaypoint::with_strategy(
        Position::default(),
        RouteStrategy::Fastest,
    ));

    let mut parameters = ParameterMap::new();
    parameters.insert("isClosed".to_string(), "true".to_string());

    let resolved = route.into_scenario_entity(parameters).unwrap();

    assert_eq!(resolved.name.as_literal().unwrap(), "ResolvedRoute");
    assert_eq!(resolved.closed.as_literal(), Some(&true));
    assert_eq!(resolved.waypoints.len(), 2);
    assert_eq!(resolved.waypoints[0].route_strategy, RouteStrategy::Shortest);
    assert_eq!(resolved.waypoints[1].route_strategy, RouteStrategy::Fastest);
}

#[test]
fn routes_test_defaults() {
    let route = CatalogRoute::default();
    let waypoint = RouteWaypoint::default();

    assert_eq!(route.name, "DefaultCatalogRoute");
    assert_eq!(waypoint.route_strategy, RouteStrategy::Fastest);
}
