use openscenario::actions::traffic::{
    CentralSwarmObject, ControllerDistribution, Phase, TrafficDefinition, TrafficSignalAction,
    TrafficSignalActionChoice, TrafficSignalController, TrafficSignalControllerAction,
    TrafficSignalGroupState, TrafficSignalState, TrafficSignalStateAction, TrafficSinkAction,
    TrafficSourceAction, TrafficStopAction, TrafficSwarmAction, VehicleCategoryDistribution,
    VehicleCategoryDistributionEntry,
};
use openscenario::basic::{Double, Real};
use openscenario::enums::VehicleCategory;
use openscenario::positions::Position;

fn r(x: f64) -> Real {
    Real::new(&format!("{:?}", x))
}

fn lit(v: &Double) -> Option<f64> {
    v.as_literal().map(|x| x.as_str().parse::<f64>().unwrap())
}

#[test]
fn test_traffic_source_action_creation() {
    let source = TrafficSourceAction::new(
        r(5.0),
        r(15.0),
        Position::default(),
        TrafficDefinition::default(),
    );

    assert_eq!(lit(&source.radius), Some(5.0));
    assert_eq!(lit(&source.rate), Some(15.0));
    assert!(source.velocity.is_none());
}

#[test]
fn test_traffic_source_with_velocity() {
    let source = TrafficSourceAction::with_velocity(
        r(5.0),
        r(20.0),
        r(60.0),
        Position::default(),
        TrafficDefinition::default(),
    );

    assert_eq!(lit(&source.rate), Some(20.0));
    assert_eq!(
        source.velocity.as_ref().and_then(|v| lit(v)),
        Some(60.0)
    );
}

#[test]
fn test_traffic_sink_action_creation() {
    let sink = TrafficSinkAction::new(r(10.0), r(30.0), Position::default());

    assert_eq!(lit(sink.rate.as_ref().unwrap()), Some(10.0));
    assert_eq!(lit(&sink.radius), Some(30.0));
    assert!(sink.traffic_definition.is_none());
}

#[test]
fn test_traffic_sink_with_definition() {
    let sink = TrafficSinkAction::with_traffic_definition(
        r(12.0),
        r(40.0),
        Position::default(),
        TrafficDefinition::default(),
    );

    assert_eq!(lit(sink.rate.as_ref().unwrap()), Some(12.0));
    assert_eq!(lit(&sink.radius), Some(40.0));
    assert!(sink.traffic_definition.is_some());
}

#[test]
fn test_traffic_swarm_action_creation() {
    let swarm = TrafficSwarmAction::new("LeadVehicle", r(100.0), r(50.0), 15)
        .with_inner_radius(r(5.0))
        .with_traffic_definition(TrafficDefinition::default());

    assert_eq!(
        swarm.central_object.entity_ref.as_literal(),
        Some(&"LeadVehicle".to_string())
    );
    assert_eq!(lit(&swarm.inner_radius), Some(5.0));
    assert_eq!(lit(&swarm.semi_major_axis), Some(100.0));
    assert_eq!(lit(&swarm.semi_minor_axis), Some(50.0));
    assert_eq!(swarm.number_of_vehicles.as_literal(), Some(&15));
}

#[test]
fn test_traffic_signal_state_action() {
    let signal =
        TrafficSignalAction::state_action("Intersection1".to_string(), "red".to_string());

    if let TrafficSignalActionChoice::TrafficSignalStateAction(state_action) =
        signal.signal_action_choice
    {
        assert_eq!(
            state_action.name.as_literal(),
            Some(&"Intersection1".to_string())
        );
        assert_eq!(state_action.state.as_literal(), Some(&"red".to_string()));
    } else {
        panic!("Expected TrafficSignalStateAction");
    }
}

#[test]
fn test_traffic_signal_controller_action() {
    let signal =
        TrafficSignalAction::controller_action("Controller1".to_string(), "Phase2".to_string());

    if let TrafficSignalActionChoice::TrafficSignalControllerAction(controller_action) =
        signal.signal_action_choice
    {
        assert_eq!(
            controller_action.traffic_signal_controller_ref.as_literal(),
            Some(&"Controller1".to_string())
        );
        assert_eq!(
            controller_action.phase_ref.as_literal(),
            Some(&"Phase2".to_string())
        );
    } else {
        panic!("Expected TrafficSignalControllerAction");
    }
}

#[test]
fn test_vehicle_category_distribution() {
    let mixed = VehicleCategoryDistribution::mixed_traffic();
    assert_eq!(mixed.entries.len(), 3);
    assert!(mixed
        .entries
        .iter()
        .any(|e| matches!(e.category, VehicleCategory::Car)));

    let urban = VehicleCategoryDistribution::urban_traffic();
    assert_eq!(urban.entries.len(), 3);
    assert_eq!(lit(&urban.entries[0].weight).unwrap(), 0.85); // Mostly cars
}

#[test]
fn test_traffic_definition_creation() {
    let vehicles = VehicleCategoryDistribution::urban_traffic();
    let controllers = ControllerDistribution::single_controller("AI1".to_string(), r(1.0));

    let definition = TrafficDefinition::with_both(vehicles, controllers);

    assert!(!definition.vehicle_category_distribution.entries.is_empty());
    assert!(!definition.controller_distribution.entries.is_empty());
}

#[test]
fn test_vehicle_categories() {
    let car = VehicleCategory::Car;
    let truck = VehicleCategory::Truck;
    let bike = VehicleCategory::Bicycle;

    // Test that enum variants exist and can be used
    let entry1 = VehicleCategoryDistributionEntry {
        category: car,
        weight: Double::literal(r(0.6)),
    };
    let entry2 = VehicleCategoryDistributionEntry {
        category: truck,
        weight: Double::literal(r(0.3)),
    };
    let entry3 = VehicleCategoryDistributionEntry {
        category: bike,
        weight: Double::literal(r(0.1)),
    };

    assert_eq!(lit(&entry1.weight).unwrap(), 0.6);
    assert_eq!(lit(&entry2.weight).unwrap(), 0.3);
    assert_eq!(lit(&entry3.weight).unwrap(), 0.1);
}

#[test]
fn test_traffic_action_defaults() {
    let source = TrafficSourceAction::default();
    assert_eq!(lit(&source.rate), Some(10.0));
    assert_eq!(
        source.velocity.as_ref().and_then(|v| lit(v)),
        Some(50.0)
    );

    let sink = TrafficSinkAction::default();
    assert_eq!(lit(sink.rate.as_ref().unwrap()), Some(10.0));
    assert_eq!(lit(&sink.radius), Some(50.0));

    let swarm = TrafficSwarmAction::default();
    assert_eq!(swarm.number_of_vehicles.as_literal(), Some(&20));
    assert_eq!(lit(&swarm.inner_radius), Some(10.0));
    assert_eq!(lit(&swarm.semi_major_axis), Some(100.0));
    assert_eq!(lit(&swarm.semi_minor_axis), Some(50.0));

    let stop = TrafficStopAction::default();
    assert_eq!(stop, TrafficStopAction {});
}

#[test]
fn test_traffic_signal_controller_creation() {
    let controller = TrafficSignalController::new("intersection_1")
        .with_delay(r(1.0))
        .with_reference("ref_1")
        .add_phase(
            Phase::new("green_ns", r(30.0))
                .add_signal_state("signal_1", "green")
                .add_signal_state("signal_2", "red"),
        );

    assert_eq!(
        controller.name.as_literal(),
        Some(&"intersection_1".to_string())
    );
    assert_eq!(lit(controller.delay.as_ref().unwrap()), Some(1.0));
    assert_eq!(
        controller.reference.as_ref().unwrap().as_literal(),
        Some(&"ref_1".to_string())
    );
    assert_eq!(controller.phases.len(), 1);
    assert_eq!(controller.phases[0].traffic_signal_states.len(), 2);
}

#[test]
fn test_phase_creation_and_manipulation() {
    let phase = Phase::new("green_phase", r(45.0))
        .add_signal_state("north_signal", "green")
        .add_signal_state("south_signal", "green")
        .add_signal_state("east_signal", "red")
        .add_signal_state("west_signal", "red")
        .with_group_state("active");

    assert_eq!(phase.name.as_literal(), Some(&"green_phase".to_string()));
    assert_eq!(lit(&phase.duration), Some(45.0));
    assert_eq!(phase.traffic_signal_states.len(), 4);
    assert!(phase.traffic_signal_group_state.is_some());
    assert_eq!(
        phase.traffic_signal_group_state.unwrap().state.as_literal(),
        Some(&"active".to_string())
    );
}

#[test]
fn test_traffic_signal_state_creation() {
    let state = TrafficSignalState::new("signal_123", "yellow");

    assert_eq!(
        state.traffic_signal_id.as_literal(),
        Some(&"signal_123".to_string())
    );
    assert_eq!(state.state.as_literal(), Some(&"yellow".to_string()));
}

#[test]
fn test_traffic_signal_group_state_creation() {
    let group_state = TrafficSignalGroupState::new("flashing");

    assert_eq!(
        group_state.state.as_literal(),
        Some(&"flashing".to_string())
    );
}

#[test]
fn test_traffic_signal_state_action_creation() {
    let action = TrafficSignalStateAction::new("main_signal", "red");

    assert_eq!(action.name.as_literal(), Some(&"main_signal".to_string()));
    assert_eq!(action.state.as_literal(), Some(&"red".to_string()));
}

#[test]
fn test_traffic_signal_controller_action_creation() {
    let action = TrafficSignalControllerAction::new("controller_1", "phase_2");

    assert_eq!(
        action.traffic_signal_controller_ref.as_literal(),
        Some(&"controller_1".to_string())
    );
    assert_eq!(action.phase_ref.as_literal(), Some(&"phase_2".to_string()));
}

#[test]
fn test_complex_traffic_signal_controller() {
    let controller = TrafficSignalController::new("complex_intersection")
        .with_delay(r(2.5))
        .add_phase(
            Phase::new("north_south_green", r(60.0))
                .add_signal_state("ns_signal", "green")
                .add_signal_state("ew_signal", "red")
                .with_group_state("ns_active"),
        )
        .add_phase(
            Phase::new("north_south_yellow", r(5.0))
                .add_signal_state("ns_signal", "yellow")
                .add_signal_state("ew_signal", "red"),
        )
        .add_phase(
            Phase::new("east_west_green", r(45.0))
                .add_signal_state("ns_signal", "red")
                .add_signal_state("ew_signal", "green")
                .with_group_state("ew_active"),
        )
        .add_phase(
            Phase::new("east_west_yellow", r(5.0))
                .add_signal_state("ns_signal", "red")
                .add_signal_state("ew_signal", "yellow"),
        );

    assert_eq!(controller.phases.len(), 4);
    assert_eq!(lit(&controller.phases[0].duration), Some(60.0));
    assert_eq!(lit(&controller.phases[1].duration), Some(5.0));
    assert_eq!(lit(&controller.phases[2].duration), Some(45.0));
    assert_eq!(lit(&controller.phases[3].duration), Some(5.0));

    // Check first phase details
    let first_phase = &controller.phases[0];
    assert_eq!(first_phase.traffic_signal_states.len(), 2);
    assert!(first_phase.traffic_signal_group_state.is_some());
}

#[test]
fn test_traffic_signal_defaults() {
    let controller = TrafficSignalController::default();
    assert_eq!(
        controller.name.as_literal(),
        Some(&"DefaultController".to_string())
    );
    assert!(controller.delay.is_none());
    assert!(controller.reference.is_none());
    assert_eq!(controller.phases.len(), 0);

    let phase = Phase::default();
    assert_eq!(phase.name.as_literal(), Some(&"DefaultPhase".to_string()));
    assert_eq!(lit(&phase.duration), Some(30.0));
    assert_eq!(phase.traffic_signal_states.len(), 0);
    assert!(phase.traffic_signal_group_state.is_none());

    let state = TrafficSignalState::default();
    assert_eq!(
        state.traffic_signal_id.as_literal(),
        Some(&"signal_1".to_string())
    );
    assert_eq!(state.state.as_literal(), Some(&"green".to_string()));

    let group_state = TrafficSignalGroupState::default();
    assert_eq!(group_state.state.as_literal(), Some(&"green".to_string()));

    let state_action = TrafficSignalStateAction::default();
    assert_eq!(
        state_action.name.as_literal(),
        Some(&"DefaultSignal".to_string())
    );
    assert_eq!(state_action.state.as_literal(), Some(&"green".to_string()));

    let controller_action = TrafficSignalControllerAction::default();
    assert_eq!(
        controller_action.traffic_signal_controller_ref.as_literal(),
        Some(&"DefaultController".to_string())
    );
    assert_eq!(
        controller_action.phase_ref.as_literal(),
        Some(&"Phase1".to_string())
    );
}

#[test]
fn test_traffic_signal_timing_validation() {
    // Test realistic traffic signal timing
    let controller = TrafficSignalController::new("realistic_intersection")
        .with_delay(r(1.0))
        .add_phase(Phase::new("green_ns", r(45.0)))
        .add_phase(Phase::new("yellow_ns", r(3.0)))
        .add_phase(Phase::new("red_ns_green_ew", r(40.0)))
        .add_phase(Phase::new("yellow_ew", r(3.0)));

    // Total cycle time should be reasonable
    let total_time: f64 = controller
        .phases
        .iter()
        .map(|p| lit(&p.duration).unwrap_or(0.0))
        .sum();

    assert_eq!(total_time, 91.0); // 45 + 3 + 40 + 3
    assert!(total_time > 60.0 && total_time < 180.0); // Reasonable cycle time
}

#[test]
fn test_traffic_signal_state_transitions() {
    // Test that we can model state transitions properly
    let states = vec![
        TrafficSignalState::new("main", "green"),
        TrafficSignalState::new("main", "yellow"),
        TrafficSignalState::new("main", "red"),
    ];

    assert_eq!(states[0].state.as_literal(), Some(&"green".to_string()));
    assert_eq!(states[1].state.as_literal(), Some(&"yellow".to_string()));
    assert_eq!(states[2].state.as_literal(), Some(&"red".to_string()));

    // All should reference the same signal
    for state in &states {
        assert_eq!(
            state.traffic_signal_id.as_literal(),
            Some(&"main".to_string())
        );
    }
}

#[test]
fn test_traffic_swarm_action_creation_comprehensive() {
    let swarm = TrafficSwarmAction::new("Ego", r(100.0), r(50.0), 10)
        .with_inner_radius(r(20.0))
        .with_central_swarm_object("CentralVehicle");

    assert_eq!(swarm.number_of_vehicles.as_literal().unwrap(), &10);
    assert_eq!(lit(&swarm.inner_radius).unwrap(), 20.0);
    assert_eq!(lit(&swarm.semi_major_axis).unwrap(), 100.0);
    assert_eq!(lit(&swarm.semi_minor_axis).unwrap(), 50.0);
    assert_eq!(
        swarm.central_object.entity_ref.as_literal().unwrap(),
        "CentralVehicle"
    );
}

#[test]
fn test_central_swarm_object_creation() {
    let central = CentralSwarmObject::new("LeadVehicle");
    assert_eq!(central.entity_ref.as_literal().unwrap(), "LeadVehicle");
}

#[test]
fn test_traffic_swarm_with_central_object() {
    let swarm = TrafficSwarmAction::new("MainVehicle", r(80.0), r(40.0), 6)
        .with_central_swarm_object("CentralEntity");

    assert_eq!(
        swarm.central_object.entity_ref.as_literal().unwrap(),
        "CentralEntity"
    );
}

#[test]
fn test_traffic_swarm_defaults() {
    let swarm = TrafficSwarmAction::default();
    // Test that defaults are reasonable
    assert!(swarm.central_object.entity_ref.as_literal().is_some());
    assert!(swarm.semi_major_axis.as_literal().is_some());
    assert!(swarm.semi_minor_axis.as_literal().is_some());
    assert!(swarm.number_of_vehicles.as_literal().is_some());
    assert!(swarm.inner_radius.as_literal().is_some());
    assert!(swarm.offset.as_literal().is_some());
}

#[test]
fn test_realistic_swarm_parameters() {
    // Test realistic highway swarm scenario
    let highway_swarm = TrafficSwarmAction::new("EgoVehicle", r(200.0), r(100.0), 15)
        .with_inner_radius(r(50.0))
        .with_offset(r(10.0));

    assert_eq!(lit(&highway_swarm.semi_major_axis).unwrap(), 200.0);
    assert_eq!(lit(&highway_swarm.inner_radius).unwrap(), 50.0);
    assert_eq!(lit(&highway_swarm.offset).unwrap(), 10.0);

    // Test city intersection swarm scenario
    let city_swarm = TrafficSwarmAction::new("CityEgo", r(80.0), r(60.0), 8)
        .with_central_swarm_object("IntersectionController");

    assert_eq!(
        city_swarm.central_object.entity_ref.as_literal().unwrap(),
        "IntersectionController"
    );
    assert_eq!(city_swarm.number_of_vehicles.as_literal().unwrap(), &8);
}

#[test]
fn test_traffic_swarm_with_velocity() {
    let swarm = TrafficSwarmAction::new("TestVehicle", r(90.0), r(45.0), 12).with_velocity(r(60.0));

    assert!(swarm.velocity.is_some());
    assert_eq!(lit(&swarm.velocity.unwrap()).unwrap(), 60.0);
}

#[test]
fn test_traffic_swarm_elliptical_parameters() {
    // Test elliptical swarm with different major/minor axes
    let elliptical_swarm = TrafficSwarmAction::new("EllipseCenter", r(150.0), r(75.0), 20);

    // Major axis should be larger than minor axis for proper ellipse
    assert!(
        lit(&elliptical_swarm.semi_major_axis).unwrap()
            > lit(&elliptical_swarm.semi_minor_axis).unwrap()
    );

    // Test circular swarm (equal axes)
    let circular_swarm = TrafficSwarmAction::new("CircleCenter", r(100.0), r(100.0), 15);
    assert_eq!(
        lit(&circular_swarm.semi_major_axis).unwrap(),
        lit(&circular_swarm.semi_minor_axis).unwrap()
    );
}

#[test]
fn test_traffic_swarm_builder_pattern() {
    let swarm = TrafficSwarmAction::new("BuilderTest", r(120.0), r(80.0), 10)
        .with_inner_radius(r(25.0))
        .with_offset(r(15.0))
        .with_velocity(r(55.0))
        .with_traffic_definition(TrafficDefinition::default())
        .with_central_swarm_object("NewCentralEntity");

    assert_eq!(lit(&swarm.inner_radius).unwrap(), 25.0);
    assert_eq!(lit(&swarm.offset).unwrap(), 15.0);
    assert_eq!(lit(&swarm.velocity.unwrap()).unwrap(), 55.0);
    assert!(swarm.traffic_definition.is_some());
    assert_eq!(
        swarm.central_object.entity_ref.as_literal().unwrap(),
        "NewCentralEntity"
    );
}
