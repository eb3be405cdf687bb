//! Actions on controllers: assigning, activating and overriding them, and the gears
//! and brakes that overrides set.
use vstd::prelude::*;
use crate::basic::{is_real_literal, real_literal, Boolean, Double, Int, OSString, Real, Value};
use crate::catalogs::entities::CatalogController;
use crate::controllers::{Controller, ObjectController};
use crate::references::CatalogReference;

verus! {

/// An action on a controller: exactly one of its branches is meant to be chosen.
#[derive(Debug, Clone, PartialEq)]
pub struct ControllerAction {
    pub assign_controller_action: Option<AssignControllerAction>,
    pub override_controller_value_action: Option<OverrideControllerValueAction>,
    pub activate_controller_action: Option<ActivateControllerAction>,
}

/// Overrides of the driver's inputs.
#[derive(Debug, Clone, PartialEq)]
pub struct OverrideControllerValueAction {
    pub throttle: Option<OverrideThrottleAction>,
    pub brake: Option<OverrideBrakeAction>,
    pub clutch: Option<OverrideClutchAction>,
    pub parking_brake: Option<OverrideParkingBrakeAction>,
    pub steering_wheel: Option<OverrideSteeringWheelAction>,
    pub gear: Option<OverrideGearAction>,
}

/// Assigns a controller to an entity.
#[derive(Debug, Clone, PartialEq)]
pub struct AssignControllerAction {
    pub activate_lateral: Option<Boolean>,
    pub activate_longitudinal: Option<Boolean>,
    pub activate_animation: Option<Boolean>,
    pub activate_lighting: Option<Boolean>,
    pub controller: Option<Controller>,
    pub catalog_reference: Option<CatalogReference>,
    pub object_controller: Option<ObjectController>,
}

/// Activates or deactivates a controller in each of its domains.
#[derive(Debug, Clone, PartialEq)]
pub struct ActivateControllerAction {
    pub controller_ref: Option<OSString>,
    pub object_controller_ref: Option<OSString>,
    pub longitudinal: Option<Boolean>,
    pub lateral: Option<Boolean>,
    pub lighting: Option<Boolean>,
    pub animation: Option<Boolean>,
}

/// Overrides the brake.
#[derive(Debug, Clone, PartialEq)]
pub struct OverrideBrakeAction {
    pub active: Boolean,
    pub value: Option<Double>,
    pub brake_input: Option<BrakeInput>,
}

/// Overrides the throttle.
#[derive(Debug, Clone, PartialEq)]
pub struct OverrideThrottleAction {
    pub active: Boolean,
    pub value: Double,
    pub max_rate: Option<Double>,
}

/// Overrides the steering wheel.
#[derive(Debug, Clone, PartialEq)]
pub struct OverrideSteeringWheelAction {
    pub active: Boolean,
    pub value: Double,
    pub max_rate: Option<Double>,
    pub max_torque: Option<Double>,
}

/// Overrides the gear.
#[derive(Debug, Clone, PartialEq)]
pub struct OverrideGearAction {
    pub active: Boolean,
    pub number: Option<Double>,
    pub gear: Option<Gear>,
}

/// Overrides the parking brake.
#[derive(Debug, Clone, PartialEq)]
pub struct OverrideParkingBrakeAction {
    pub active: Boolean,
    pub value: Option<Double>,
    pub brake_input: Option<BrakeInput>,
}

/// Overrides the clutch.
#[derive(Debug, Clone, PartialEq)]
pub struct OverrideClutchAction {
    pub active: Boolean,
    pub value: Double,
    pub max_rate: Option<Double>,
}

/// A gear of a manual gearbox, by number.
#[derive(Debug, Clone, PartialEq)]
pub struct ManualGear {
    pub number: Int,
}

/// A position of an automatic gearbox.
#[derive(Debug, Clone, PartialEq)]
pub struct AutomaticGear {
    pub gear: AutomaticGearType,
}

/// The positions of an automatic gearbox.
#[derive(Debug, Clone, Copy, PartialEq, Eq)]
pub enum AutomaticGearType {
    Park,
    Reverse,
    Neutral,
    Drive,
}

/// A brake input and the rate at which it may change.
#[derive(Debug, Clone, PartialEq)]
pub struct Brake {
    pub value: Double,
    pub max_rate: Option<Double>,
}

/// A brake input as a share of full braking or as a force.
#[derive(Debug, Clone, PartialEq)]
pub enum BrakeInput {
    BrakePercent(Brake),
    BrakeForce(Brake),
}

/// A gear of a manual or an automatic gearbox.
#[derive(Debug, Clone, PartialEq)]
pub enum Gear {
    ManualGear(ManualGear),
    AutomaticGear(AutomaticGear),
}

impl Default for ControllerAction {
    /// No branch chosen.
    fn default() -> (r: ControllerAction)
        ensures
            r.assign_controller_action is None,
            r.override_controller_value_action is None,
            r.activate_controller_action is None,
    {
        ControllerAction {
            assign_controller_action: None,
            override_controller_value_action: None,
            activate_controller_action: None,
        }
    }
}

impl Default for OverrideControllerValueAction {
    /// No overrides.
    fn default() -> (r: OverrideControllerValueAction)
        ensures
            r.throttle is None,
            r.brake is None,
            r.clutch is None,
            r.parking_brake is None,
            r.steering_wheel is None,
            r.gear is None,
    {
        OverrideControllerValueAction {
            throttle: None,
            brake: None,
            clutch: None,
            parking_brake: None,
            steering_wheel: None,
            gear: None,
        }
    }
}

impl Default for AutomaticGearType {
    /// Drive.
    fn default() -> (r: AutomaticGearType)
        ensures
            r == AutomaticGearType::Drive,
    {
        AutomaticGearType::Drive
    }
}

impl Default for AssignControllerAction {
    /// An assignment with nothing given.
    fn default() -> (r: AssignControllerAction)
        ensures
            r.controller is None,
            r.catalog_reference is None,
            r.object_controller is None,
            r.activate_lateral is None,
            r.activate_longitudinal is None,
            r.activate_animation is None,
            r.activate_lighting is None,
    {
        AssignControllerAction {
            controller: None,
            catalog_reference: None,
            object_controller: None,
            activate_lateral: None,
            activate_longitudinal: None,
            activate_animation: None,
            activate_lighting: None,
        }
    }
}

impl Default for ActivateControllerAction {
    /// Activation of the longitudinal and lateral domains, deactivation of lighting
    /// and animation, naming no controller.
    fn default() -> (r: ActivateControllerAction)
        ensures
            r.controller_ref is None,
            r.object_controller_ref is None,
            r.longitudinal == Some(Value::<bool>::Literal(true)),
            r.lateral == Some(Value::<bool>::Literal(true)),
            r.lighting == Some(Value::<bool>::Literal(false)),
            r.animation == Some(Value::<bool>::Literal(false)),
    {
        ActivateControllerAction {
            controller_ref: None,
            object_controller_ref: None,
            longitudinal: Some(Value::Literal(true)),
            lateral: Some(Value::Literal(true)),
            lighting: Some(Value::Literal(false)),
            animation: Some(Value::Literal(false)),
        }
    }
}

impl Default for ManualGear {
    /// First gear.
    fn default() -> (r: ManualGear)
        ensures
            r.number == Value::<i32>::Literal(1),
    {
        ManualGear { number: Value::Literal(1) }
    }
}

impl Default for AutomaticGear {
    /// Drive.
    fn default() -> (r: AutomaticGear)
        ensures
            r.gear == AutomaticGearType::Drive,
    {
        AutomaticGear { gear: AutomaticGearType::Drive }
    }
}

impl Default for Brake {
    /// No braking.
    fn default() -> (r: Brake)
        ensures
            is_real_literal(r.value, "0.0"@),
            r.max_rate is None,
    {
        Brake { value: real_literal("0.0"), max_rate: None }
    }
}

impl Default for BrakeInput {
    /// No braking, as a share of full braking.
    fn default() -> (r: BrakeInput)
        ensures
            r matches BrakeInput::BrakePercent(b) && is_real_literal(b.value, "0.0"@) && b.max_rate is None,
    {
        BrakeInput::BrakePercent(Brake::default())
    }
}

impl Default for Gear {
    /// Drive of an automatic gearbox.
    fn default() -> (r: Gear)
        ensures
            r == Gear::AutomaticGear(AutomaticGear { gear: AutomaticGearType::Drive }),
    {
        Gear::AutomaticGear(AutomaticGear::default())
    }
}

impl AssignControllerAction {
    /// The assignment of the controller `controller`, given in place.
    pub fn with_controller(controller: Controller) -> (r: AssignControllerAction)
        ensures
            r == (AssignControllerAction {
                controller: Some(controller),
                catalog_reference: None,
                object_controller: None,
                activate_lateral: None,
                activate_longitudinal: None,
                activate_animation: None,
                activate_lighting: None,
            }),
    {
        AssignControllerAction {
            controller: Some(controller),
            catalog_reference: None,
            object_controller: None,
            activate_lateral: None,
            activate_longitudinal: None,
            activate_animation: None,
            activate_lighting: None,
        }
    }

    /// The assignment of the controller that `catalog_reference` names.
    pub fn with_catalog_reference(catalog_reference: CatalogReference) -> (r: AssignControllerAction)
        ensures
            r == (AssignControllerAction {
                controller: None,
                catalog_reference: Some(catalog_reference),
                object_controller: None,
                activate_lateral: None,
                activate_longitudinal: None,
                activate_animation: None,
                activate_lighting: None,
            }),
    {
        AssignControllerAction {
            controller: None,
            catalog_reference: Some(catalog_reference),
            object_controller: None,
            activate_lateral: None,
            activate_longitudinal: None,
            activate_animation: None,
            activate_lighting: None,
        }
    }
}

impl ActivateControllerAction {
    /// Activation of each domain as the four flags say, naming no controller.
    pub fn all_domains(longitudinal: bool, lateral: bool, lighting: bool, animation: bool) -> (r: ActivateControllerAction)
        ensures
            r.controller_ref is None,
            r.object_controller_ref is None,
            r.longitudinal == Some(Value::<bool>::Literal(longitudinal)),
            r.lateral == Some(Value::<bool>::Literal(lateral)),
            r.lighting == Some(Value::<bool>::Literal(lighting)),
            r.animation == Some(Value::<bool>::Literal(animation)),
    {
        ActivateControllerAction {
            controller_ref: None,
            object_controller_ref: None,
            longitudinal: Some(Value::Literal(longitudinal)),
            lateral: Some(Value::Literal(lateral)),
            lighting: Some(Value::Literal(lighting)),
            animation: Some(Value::Literal(animation)),
        }
    }

    /// Activation of the longitudinal and lateral domains, leaving lighting and
    /// animation unsaid.
    pub fn movement_only() -> (r: ActivateControllerAction)
        ensures
            r.controller_ref is None,
            r.object_controller_ref is None,
            r.longitudinal == Some(Value::<bool>::Literal(true)),
            r.lateral == Some(Value::<bool>::Literal(true)),
            r.lighting is None,
            r.animation is None,
    {
        ActivateControllerAction {
            controller_ref: None,
            object_controller_ref: None,
            longitudinal: Some(Value::Literal(true)),
            lateral: Some(Value::Literal(true)),
            lighting: None,
            animation: None,
        }
    }
}

impl ManualGear {
    /// The gear `number`.
    pub fn new(number: i32) -> (r: ManualGear)
        ensures
            r.number == Value::<i32>::Literal(number),
    {
        ManualGear { number: Value::Literal(number) }
    }

    /// Neutral: gear 0.
    pub fn neutral() -> (r: ManualGear)
        ensures
            r.number == Value::<i32>::Literal(0),
    {
        ManualGear::new(0)
    }

    /// First gear.
    pub fn first() -> (r: ManualGear)
        ensures
            r.number == Value::<i32>::Literal(1),
    {
        ManualGear::new(1)
    }

    /// Reverse: gear -1.
    pub fn reverse() -> (r: ManualGear)
        ensures
            r.number == Value::<i32>::Literal(-1i32),
    {
        ManualGear::new(-1)
    }
}

impl AutomaticGear {
    /// Park.
    pub fn park() -> (r: AutomaticGear)
        ensures
            r.gear == AutomaticGearType::Park,
    {
        AutomaticGear { gear: AutomaticGearType::Park }
    }

    /// Reverse.
    pub fn reverse() -> (r: AutomaticGear)
        ensures
            r.gear == AutomaticGearType::Reverse,
    {
        AutomaticGear { gear: AutomaticGearType::Reverse }
    }

    /// Neutral.
    pub fn neutral() -> (r: AutomaticGear)
        ensures
            r.gear == AutomaticGearType::Neutral,
    {
        AutomaticGear { gear: AutomaticGearType::Neutral }
    }

    /// Drive.
    pub fn drive() -> (r: AutomaticGear)
        ensures
            r.gear == AutomaticGearType::Drive,
    {
        AutomaticGear { gear: AutomaticGearType::Drive }
    }
}

impl Gear {
    /// Gear `gear` of a manual gearbox.
    pub fn manual(gear: i32) -> (r: Gear)
        ensures
            r == Gear::ManualGear(ManualGear { number: Value::Literal(gear) }),
    {
        Gear::ManualGear(ManualGear::new(gear))
    }

    /// Position `gear_type` of an automatic gearbox.
    pub fn automatic(gear_type: AutomaticGearType) -> (r: Gear)
        ensures
            r == Gear::AutomaticGear(AutomaticGear { gear: gear_type }),
    {
        Gear::AutomaticGear(AutomaticGear { gear: gear_type })
    }

    /// First gear of a manual gearbox.
    pub fn manual_first() -> (r: Gear)
        ensures
            r == Gear::ManualGear(ManualGear { number: Value::Literal(1) }),
    {
        Gear::ManualGear(ManualGear::first())
    }

    /// Neutral of a manual gearbox.
    pub fn manual_neutral() -> (r: Gear)
        ensures
            r == Gear::ManualGear(ManualGear { number: Value::Literal(0) }),
    {
        Gear::ManualGear(ManualGear::neutral())
    }

    /// Reverse of a manual gearbox.
    pub fn manual_reverse() -> (r: Gear)
        ensures
            r == Gear::ManualGear(ManualGear { number: Value::Literal(-1i32) }),
    {
        Gear::ManualGear(ManualGear::reverse())
    }

    /// Park of an automatic gearbox.
    pub fn automatic_park() -> (r: Gear)
        ensures
            r == Gear::AutomaticGear(AutomaticGear { gear: AutomaticGearType::Park }),
    {
        Gear::AutomaticGear(AutomaticGear::park())
    }

    /// Drive of an automatic gearbox.
    pub fn automatic_drive() -> (r: Gear)
        ensures
            r == Gear::AutomaticGear(AutomaticGear { gear: AutomaticGearType::Drive }),
    {
        Gear::AutomaticGear(AutomaticGear::drive())
    }

    /// Reverse of an automatic gearbox.
    pub fn automatic_reverse() -> (r: Gear)
        ensures
            r == Gear::AutomaticGear(AutomaticGear { gear: AutomaticGearType::Reverse }),
    {
        Gear::AutomaticGear(AutomaticGear::reverse())
    }

    /// Neutral of an automatic gearbox.
    pub fn automatic_neutral() -> (r: Gear)
        ensures
            r == Gear::AutomaticGear(AutomaticGear { gear: AutomaticGearType::Neutral }),
    {
        Gear::AutomaticGear(AutomaticGear::neutral())
    }
}

impl Brake {
    /// The brake input `value`.
    pub fn new(value: Real) -> (r: Brake)
        ensures
            r == (Brake { value: Value::Literal(value), max_rate: None }),
    {
        Brake { value: Value::Literal(value), max_rate: None }
    }

    /// No braking.
    pub fn zero() -> (r: Brake)
        ensures
            is_real_literal(r.value, "0.0"@),
            r.max_rate is None,
    {
        Brake::new(Real::new("0.0"))
    }

    /// Full braking.
    pub fn full() -> (r: Brake)
        ensures
            is_real_literal(r.value, "1.0"@),
            r.max_rate is None,
    {
        Brake::new(Real::new("1.0"))
    }
}

impl BrakeInput {
    /// The brake input `value`, as a share of full braking.
    pub fn percent(value: Real) -> (r: BrakeInput)
        ensures
            r == BrakeInput::BrakePercent(Brake { value: Value::Literal(value), max_rate: None }),
    {
        BrakeInput::BrakePercent(Brake::new(value))
    }

    /// The brake input `value`, as a force.
    pub fn force(value: Real) -> (r: BrakeInput)
        ensures
            r == BrakeInput::BrakeForce(Brake { value: Value::Literal(value), max_rate: None }),
    {
        BrakeInput::BrakeForce(Brake::new(value))
    }

    /// The brake input, whichever its kind.
    pub fn value(&self) -> (r: &Double)
        ensures
            match self {
                BrakeInput::BrakePercent(b) => *r == b.value,
                BrakeInput::BrakeForce(b) => *r == b.value,
            },
    {
        match self {
            BrakeInput::BrakePercent(brake) => &brake.value,
            BrakeInput::BrakeForce(brake) => &brake.value,
        }
    }

    /// Whether the input is a share of full braking.
    pub fn is_percent(&self) -> (r: bool)
        ensures
            r == (self is BrakePercent),
    {
        match self {
            BrakeInput::BrakePercent(_) => true,
            _ => false,
        }
    }

    /// Whether the input is a force.
    pub fn is_force(&self) -> (r: bool)
        ensures
            r == (self is BrakeForce),
    {
        match self {
            BrakeInput::BrakeForce(_) => true,
            _ => false,
        }
    }
}

} // verus!
