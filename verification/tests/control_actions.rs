use openscenario::actions::control::{
    ActivateControllerAction, AssignControllerAction, AutomaticGear, AutomaticGearType, Brake,
    BrakeInput, ControllerAction, Gear, ManualGear,
};
use openscenario::basic::{Double, Real};
use openscenario::controllers::Controller;
use openscenario::enums::ControllerType;

fn r(x: f64) -> Real {
    Real::new(&format!("{:?}", x))
}

fn lit(v: &Double) -> Option<f64> {
    v.as_literal().map(|x| x.as_str().parse::<f64>().unwrap())
}

#[test]
fn test_assign_controller_action_creation() {
    let controller = Controller::new(
        "TestController".to_string(),
        ControllerType::Movement,
    );
    let action = AssignControllerAction::with_controller(controller);

    assert!(action.controller.is_some());
    assert!(action.catalog_reference.is_none());
}

#[test]
fn test_activate_controller_action_creation() {
    let action = ActivateControllerAction::all_domains(true, true, false, false);

    assert_eq!(action.longitudinal.unwrap().as_literal(), Some(&true));
    assert_eq!(action.lateral.unwrap().as_literal(), Some(&true));
    assert_eq!(action.lighting.unwrap().as_literal(), Some(&false));
    assert_eq!(action.animation.unwrap().as_literal(), Some(&false));
}

#[test]
fn test_activate_controller_movement_only() {
    let action = ActivateControllerAction::movement_only();

    assert_eq!(action.longitudinal.unwrap().as_literal(), Some(&true));
    assert_eq!(action.lateral.unwrap().as_literal(), Some(&true));
    assert!(action.lighting.is_none());
    assert!(action.animation.is_none());
}

#[test]
fn test_manual_gear_creation() {
    let first_gear = ManualGear::first();
    assert_eq!(first_gear.number.as_literal().unwrap(), &1);

    let neutral = ManualGear::neutral();
    assert_eq!(neutral.number.as_literal().unwrap(), &0);

    let reverse = ManualGear::reverse();
    assert_eq!(reverse.number.as_literal().unwrap(), &(-1));
}

#[test]
fn test_automatic_gear_creation() {
    let park = AutomaticGear::park();
    assert_eq!(park.gear, AutomaticGearType::Park);

    let drive = AutomaticGear::drive();
    assert_eq!(drive.gear, AutomaticGearType::Drive);

    let reverse = AutomaticGear::reverse();
    assert_eq!(reverse.gear, AutomaticGearType::Reverse);

    let neutral = AutomaticGear::neutral();
    assert_eq!(neutral.gear, AutomaticGearType::Neutral);
}

#[test]
fn test_controller_action_defaults() {
    let assign = AssignControllerAction::default();
    assert!(assign.controller.is_none());
    assert!(assign.catalog_reference.is_none());

    let activate = ActivateControllerAction::default();
    assert_eq!(activate.longitudinal.unwrap().as_literal(), Some(&true));
    assert_eq!(activate.lateral.unwrap().as_literal(), Some(&true));

    let controller_action = ControllerAction::default();
    assert!(controller_action.assign_controller_action.is_none());
    assert!(controller_action.override_controller_value_action.is_none());
    assert!(controller_action.activate_controller_action.is_none());
}

#[test]
fn test_brake_creation_and_helpers() {
    let brake = Brake::new(r(0.5));
    assert_eq!(lit(&brake.value).unwrap(), 0.5);

    let zero_brake = Brake::zero();
    assert_eq!(lit(&zero_brake.value).unwrap(), 0.0);

    let full_brake = Brake::full();
    assert_eq!(lit(&full_brake.value).unwrap(), 1.0);

    let default_brake = Brake::default();
    assert_eq!(lit(&default_brake.value).unwrap(), 0.0);
}

#[test]
fn test_brake_input_group() {
    let percent_brake = BrakeInput::percent(r(0.7));
    assert!(percent_brake.is_percent());
    assert!(!percent_brake.is_force());
    assert_eq!(lit(percent_brake.value()), Some(0.7));

    let force_brake = BrakeInput::force(r(500.0));
    assert!(!force_brake.is_percent());
    assert!(force_brake.is_force());
    assert_eq!(lit(force_brake.value()), Some(500.0));

    let default_brake_input = BrakeInput::default();
    assert!(default_brake_input.is_percent());
    assert_eq!(lit(default_brake_input.value()), Some(0.0));
}

#[test]
fn test_gear_group_creation() {
    let manual_gear = Gear::manual(3);
    if let Gear::ManualGear(gear) = manual_gear {
        assert_eq!(gear.number.as_literal(), Some(&3));
    } else {
        panic!("Expected ManualGear variant");
    }

    let auto_gear = Gear::automatic(AutomaticGearType::Park);
    if let Gear::AutomaticGear(gear) = auto_gear {
        assert_eq!(gear.gear, AutomaticGearType::Park);
    } else {
        panic!("Expected AutomaticGear variant");
    }
}

#[test]
fn test_gear_group_convenience_methods() {
    let manual_first = Gear::manual_first();
    if let Gear::ManualGear(gear) = manual_first {
        assert_eq!(gear.number.as_literal(), Some(&1));
    } else {
        panic!("Expected ManualGear variant");
    }

    let manual_neutral = Gear::manual_neutral();
    if let Gear::ManualGear(gear) = manual_neutral {
        assert_eq!(gear.number.as_literal(), Some(&0));
    } else {
        panic!("Expected ManualGear variant");
    }

    let manual_reverse = Gear::manual_reverse();
    if let Gear::ManualGear(gear) = manual_reverse {
        assert_eq!(gear.number.as_literal(), Some(&(-1)));
    } else {
        panic!("Expected ManualGear variant");
    }

    let auto_park = Gear::automatic_park();
    if let Gear::AutomaticGear(gear) = auto_park {
        assert_eq!(gear.gear, AutomaticGearType::Park);
    } else {
        panic!("Expected AutomaticGear variant");
    }

    let auto_drive = Gear::automatic_drive();
    if let Gear::AutomaticGear(gear) = auto_drive {
        assert_eq!(gear.gear, AutomaticGearType::Drive);
    } else {
        panic!("Expected AutomaticGear variant");
    }
}

#[test]
fn test_gear_group_default() {
    let default_gear = Gear::default();
    if let Gear::AutomaticGear(gear) = default_gear {
        assert_eq!(gear.gear, AutomaticGearType::Drive);
    } else {
        panic!("Expected AutomaticGear variant as default");
    }
}
