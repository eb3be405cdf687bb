use openscenario::enums::{
    AngleType, AutomaticGearType, CloudState, ColorType, ControllerType, DirectionalDimension,
    FractionalCloudCover, LateralDisplacement, LightMode, LongitudinalDisplacement,
    MiscObjectCategory, PedestrianGestureType, PedestrianMotionType, PrecipitationType, Role,
    RouteStrategy, RoutingAlgorithm, Rule, VehicleCategory, VehicleComponentType, VehicleLightType,
    Wetness,
};

#[test]
fn test_vehicle_category_display() {
    assert_eq!(VehicleCategory::Car.to_string(), "car");
    assert_eq!(VehicleCategory::Truck.to_string(), "truck");
}

#[test]
fn test_vehicle_category_from_str() {
    assert_eq!(
        "car".parse::<VehicleCategory>().unwrap(),
        VehicleCategory::Car
    );
    assert_eq!(
        "truck".parse::<VehicleCategory>().unwrap(),
        VehicleCategory::Truck
    );
    assert!("invalid".parse::<VehicleCategory>().is_err());
}

#[test]
fn test_rule_display() {
    assert_eq!(Rule::EqualTo.to_string(), "equalTo");
    assert_eq!(Rule::GreaterThan.to_string(), "greaterThan");
}

#[test]
fn test_misc_object_category_display() {
    assert_eq!(MiscObjectCategory::Barrier.to_string(), "barrier");
    assert_eq!(MiscObjectCategory::Building.to_string(), "building");
    assert_eq!(MiscObjectCategory::NoCategory.to_string(), "none");
}

#[test]
fn test_misc_object_category_from_str() {
    assert_eq!(
        "barrier".parse::<MiscObjectCategory>().unwrap(),
        MiscObjectCategory::Barrier
    );
    assert_eq!(
        "obstacle".parse::<MiscObjectCategory>().unwrap(),
        MiscObjectCategory::Obstacle
    );
    assert!("invalid".parse::<MiscObjectCategory>().is_err());
}

#[test]
fn test_controller_type_display() {
    assert_eq!(ControllerType::Lateral.to_string(), "lateral");
    assert_eq!(ControllerType::All.to_string(), "all");
}

#[test]
fn test_precipitation_type_display() {
    assert_eq!(PrecipitationType::Dry.to_string(), "dry");
    assert_eq!(PrecipitationType::Rain.to_string(), "rain");
}

#[test]
fn test_wetness_display() {
    assert_eq!(Wetness::Dry.to_string(), "dry");
    assert_eq!(Wetness::WetWithPuddles.to_string(), "wetWithPuddles");
}

#[test]
fn test_color_type_display() {
    assert_eq!(ColorType::Red.to_string(), "red");
    assert_eq!(ColorType::Blue.to_string(), "blue");
}

#[test]
fn test_role_display() {
    assert_eq!(Role::NoRole.to_string(), "none");
    assert_eq!(Role::Police.to_string(), "police");
}

#[test]
fn test_angle_type_display() {
    assert_eq!(AngleType::Heading.to_string(), "heading");
    assert_eq!(AngleType::Pitch.to_string(), "pitch");
    assert_eq!(AngleType::Roll.to_string(), "roll");
}

#[test]
fn test_angle_type_from_str() {
    assert_eq!("heading".parse::<AngleType>().unwrap(), AngleType::Heading);
    assert_eq!("pitch".parse::<AngleType>().unwrap(), AngleType::Pitch);
    assert_eq!("roll".parse::<AngleType>().unwrap(), AngleType::Roll);
    assert!("invalid".parse::<AngleType>().is_err());
}

#[test]
fn test_directional_dimension_display() {
    assert_eq!(
        DirectionalDimension::Longitudinal.to_string(),
        "longitudinal"
    );
    assert_eq!(DirectionalDimension::Lateral.to_string(), "lateral");
    assert_eq!(DirectionalDimension::Vertical.to_string(), "vertical");
}

#[test]
fn test_vehicle_component_type_display() {
    assert_eq!(VehicleComponentType::Hood.to_string(), "hood");
    assert_eq!(
        VehicleComponentType::DoorFrontLeft.to_string(),
        "doorFrontLeft"
    );
}

#[test]
fn test_vehicle_light_type_display() {
    assert_eq!(
        VehicleLightType::DaytimeRunningLights.to_string(),
        "daytimeRunningLights"
    );
    assert_eq!(VehicleLightType::BrakeLights.to_string(), "brakeLights");
}

#[test]
fn test_light_mode_display() {
    assert_eq!(LightMode::On.to_string(), "on");
    assert_eq!(LightMode::Off.to_string(), "off");
    assert_eq!(LightMode::Flashing.to_string(), "flashing");
}

#[test]
fn test_automatic_gear_type_display() {
    assert_eq!(AutomaticGearType::Neutral.to_string(), "n");
    assert_eq!(AutomaticGearType::Park.to_string(), "p");
    assert_eq!(AutomaticGearType::Reverse.to_string(), "r");
    assert_eq!(AutomaticGearType::Drive.to_string(), "d");
}

#[test]
fn test_automatic_gear_type_from_str() {
    assert_eq!(
        "n".parse::<AutomaticGearType>().unwrap(),
        AutomaticGearType::Neutral
    );
    assert_eq!(
        "p".parse::<AutomaticGearType>().unwrap(),
        AutomaticGearType::Park
    );
    assert_eq!(
        "r".parse::<AutomaticGearType>().unwrap(),
        AutomaticGearType::Reverse
    );
    assert_eq!(
        "d".parse::<AutomaticGearType>().unwrap(),
        AutomaticGearType::Drive
    );
    assert!("invalid".parse::<AutomaticGearType>().is_err());
}

#[test]
fn test_fractional_cloud_cover_display() {
    assert_eq!(FractionalCloudCover::ZeroOktas.to_string(), "zeroOktas");
    assert_eq!(FractionalCloudCover::FiveOktas.to_string(), "fiveOktas");
    assert_eq!(FractionalCloudCover::NineOktas.to_string(), "nineOktas");
}

#[test]
fn test_fractional_cloud_cover_from_str() {
    assert_eq!(
        "zeroOktas".parse::<FractionalCloudCover>().unwrap(),
        FractionalCloudCover::ZeroOktas
    );
    assert_eq!(
        "fiveOktas".parse::<FractionalCloudCover>().unwrap(),
        FractionalCloudCover::FiveOktas
    );
    assert_eq!(
        "nineOktas".parse::<FractionalCloudCover>().unwrap(),
        FractionalCloudCover::NineOktas
    );
    assert!("invalid".parse::<FractionalCloudCover>().is_err());
}

#[test]
fn test_pedestrian_motion_type_display() {
    assert_eq!(PedestrianMotionType::Standing.to_string(), "standing");
    assert_eq!(PedestrianMotionType::Walking.to_string(), "walking");
    assert_eq!(PedestrianMotionType::Running.to_string(), "running");
    assert_eq!(PedestrianMotionType::BendingDown.to_string(), "bendingDown");
}

#[test]
fn test_pedestrian_motion_type_from_str() {
    assert_eq!(
        "standing".parse::<PedestrianMotionType>().unwrap(),
        PedestrianMotionType::Standing
    );
    assert_eq!(
        "walking".parse::<PedestrianMotionType>().unwrap(),
        PedestrianMotionType::Walking
    );
    assert_eq!(
        "running".parse::<PedestrianMotionType>().unwrap(),
        PedestrianMotionType::Running
    );
    assert_eq!(
        "bendingDown".parse::<PedestrianMotionType>().unwrap(),
        PedestrianMotionType::BendingDown
    );
    assert!("invalid".parse::<PedestrianMotionType>().is_err());
}

#[test]
fn test_pedestrian_gesture_type_display() {
    assert_eq!(
        PedestrianGestureType::PhoneCallRightHand.to_string(),
        "phoneCallRightHand"
    );
    assert_eq!(
        PedestrianGestureType::WavingLeftArm.to_string(),
        "wavingLeftArm"
    );
    assert_eq!(
        PedestrianGestureType::CoffeeRightHand.to_string(),
        "coffeeRightHand"
    );
    assert_eq!(
        PedestrianGestureType::SandwichLeftHand.to_string(),
        "sandwichLeftHand"
    );
}

#[test]
fn test_pedestrian_gesture_type_from_str() {
    assert_eq!(
        "phoneCallRightHand"
            .parse::<PedestrianGestureType>()
            .unwrap(),
        PedestrianGestureType::PhoneCallRightHand
    );
    assert_eq!(
        "wavingLeftArm".parse::<PedestrianGestureType>().unwrap(),
        PedestrianGestureType::WavingLeftArm
    );
    assert_eq!(
        "coffeeRightHand".parse::<PedestrianGestureType>().unwrap(),
        PedestrianGestureType::CoffeeRightHand
    );
    assert_eq!(
        "sandwichLeftHand".parse::<PedestrianGestureType>().unwrap(),
        PedestrianGestureType::SandwichLeftHand
    );
    assert!("invalid".parse::<PedestrianGestureType>().is_err());
}

#[test]
fn test_route_strategy_display() {
    assert_eq!(RouteStrategy::Fastest.to_string(), "fastest");
    assert_eq!(
        RouteStrategy::LeastIntersections.to_string(),
        "leastIntersections"
    );
    assert_eq!(RouteStrategy::Random.to_string(), "random");
    assert_eq!(RouteStrategy::Shortest.to_string(), "shortest");
}

#[test]
fn test_route_strategy_from_str() {
    assert_eq!(
        "fastest".parse::<RouteStrategy>().unwrap(),
        RouteStrategy::Fastest
    );
    assert_eq!(
        "leastIntersections".parse::<RouteStrategy>().unwrap(),
        RouteStrategy::LeastIntersections
    );
    assert_eq!(
        "random".parse::<RouteStrategy>().unwrap(),
        RouteStrategy::Random
    );
    assert_eq!(
        "shortest".parse::<RouteStrategy>().unwrap(),
        RouteStrategy::Shortest
    );
    assert!("invalid".parse::<RouteStrategy>().is_err());
}

#[test]
fn test_routing_algorithm_display() {
    assert_eq!(RoutingAlgorithm::AssignedRoute.to_string(), "assignedRoute");
    assert_eq!(RoutingAlgorithm::Fastest.to_string(), "fastest");
    assert_eq!(
        RoutingAlgorithm::LeastIntersections.to_string(),
        "leastIntersections"
    );
    assert_eq!(RoutingAlgorithm::Shortest.to_string(), "shortest");
    assert_eq!(RoutingAlgorithm::Undefined.to_string(), "undefined");
}

#[test]
fn test_routing_algorithm_from_str() {
    assert_eq!(
        "assignedRoute".parse::<RoutingAlgorithm>().unwrap(),
        RoutingAlgorithm::AssignedRoute
    );
    assert_eq!(
        "fastest".parse::<RoutingAlgorithm>().unwrap(),
        RoutingAlgorithm::Fastest
    );
    assert_eq!(
        "leastIntersections".parse::<RoutingAlgorithm>().unwrap(),
        RoutingAlgorithm::LeastIntersections
    );
    assert_eq!(
        "shortest".parse::<RoutingAlgorithm>().unwrap(),
        RoutingAlgorithm::Shortest
    );
    assert_eq!(
        "undefined".parse::<RoutingAlgorithm>().unwrap(),
        RoutingAlgorithm::Undefined
    );
    assert!("invalid".parse::<RoutingAlgorithm>().is_err());
}

#[test]
fn test_lateral_displacement_display() {
    assert_eq!(LateralDisplacement::Any.to_string(), "any");
    assert_eq!(
        LateralDisplacement::LeftToReferencedEntity.to_string(),
        "leftToReferencedEntity"
    );
    assert_eq!(
        LateralDisplacement::RightToReferencedEntity.to_string(),
        "rightToReferencedEntity"
    );
}

#[test]
fn test_lateral_displacement_from_str() {
    assert_eq!(
        "any".parse::<LateralDisplacement>().unwrap(),
        LateralDisplacement::Any
    );
    assert_eq!(
        "leftToReferencedEntity"
            .parse::<LateralDisplacement>()
            .unwrap(),
        LateralDisplacement::LeftToReferencedEntity
    );
    assert_eq!(
        "rightToReferencedEntity"
            .parse::<LateralDisplacement>()
            .unwrap(),
        LateralDisplacement::RightToReferencedEntity
    );
    assert!("invalid".parse::<LateralDisplacement>().is_err());
}

#[test]
fn test_longitudinal_displacement_display() {
    assert_eq!(LongitudinalDisplacement::Any.to_string(), "any");
    assert_eq!(
        LongitudinalDisplacement::TrailingReferencedEntity.to_string(),
        "trailingReferencedEntity"
    );
    assert_eq!(
        LongitudinalDisplacement::LeadingReferencedEntity.to_string(),
        "leadingReferencedEntity"
    );
}

#[test]
fn test_longitudinal_displacement_from_str() {
    assert_eq!(
        "any".parse::<LongitudinalDisplacement>().unwrap(),
        LongitudinalDisplacement::Any
    );
    assert_eq!(
        "trailingReferencedEntity"
            .parse::<LongitudinalDisplacement>()
            .unwrap(),
        LongitudinalDisplacement::TrailingReferencedEntity
    );
    assert_eq!(
        "leadingReferencedEntity"
            .parse::<LongitudinalDisplacement>()
            .unwrap(),
        LongitudinalDisplacement::LeadingReferencedEntity
    );
    assert!("invalid".parse::<LongitudinalDisplacement>().is_err());
}

#[test]
fn test_cloud_state_display() {
    assert_eq!(CloudState::Cloudy.to_string(), "cloudy");
    assert_eq!(CloudState::Free.to_string(), "free");
    assert_eq!(CloudState::Overcast.to_string(), "overcast");
    assert_eq!(CloudState::Rainy.to_string(), "rainy");
    assert_eq!(CloudState::SkyOff.to_string(), "skyOff");
}

#[test]
fn test_cloud_state_from_str() {
    assert_eq!("cloudy".parse::<CloudState>().unwrap(), CloudState::Cloudy);
    assert_eq!("free".parse::<CloudState>().unwrap(), CloudState::Free);
    assert_eq!(
        "overcast".parse::<CloudState>().unwrap(),
        CloudState::Overcast
    );
    assert_eq!("rainy".parse::<CloudState>().unwrap(), CloudState::Rainy);
    assert_eq!("skyOff".parse::<CloudState>().unwrap(), CloudState::SkyOff);
    assert!("invalid".parse::<CloudState>().is_err());
}

#[test]
fn test_cloud_state_deprecation_warning() {
    // This test documents that CloudState is deprecated
    // The deprecation warning should be shown when using these types
    let _state = CloudState::Free;
    // If CloudState is used in real code, developers should migrate to FractionalCloudCover
}
