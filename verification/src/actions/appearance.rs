//! Actions on how entities appear: visibility, lights and animations.
use vstd::prelude::*;
use crate::basic::{is_real_literal, is_str_literal, real_literal, Boolean, Double, OSString, Value};
use crate::entities::vehicle::File;
use crate::enums::{
    ColorType, LightMode, PedestrianGestureType, PedestrianMotionType, VehicleComponentType,
    VehicleLightType,
};

verus! {

/// Whether an entity is seen by graphics, by sensors and by traffic.
#[derive(Debug, Clone, PartialEq)]
pub struct VisibilityAction {
    pub graphics: Boolean,
    pub sensors: Boolean,
    pub traffic: Boolean,
    pub sensor_reference_set: Option<SensorReferenceSet>,
}

/// The sensors that an entity is visible to.
#[derive(Debug, Clone, PartialEq)]
pub struct SensorReferenceSet {
    pub sensor_references: Vec<SensorReference>,
}

/// A sensor, by name.
#[derive(Debug, Clone, PartialEq)]
pub struct SensorReference {
    pub name: OSString,
}

/// A change of lights or an animation.
#[derive(Debug, Clone, PartialEq)]
pub struct AppearanceAction {
    pub light_state_action: Option<LightStateAction>,
    pub animation_action: Option<AnimationAction>,
}

/// Sets the state of a light.
#[derive(Debug, Clone, PartialEq)]
pub struct LightStateAction {
    pub transition_time: Option<Double>,
    pub light_type: LightType,
    pub light_state: LightState,
}

/// A light: a standard vehicle light or one of the author's.
#[derive(Debug, Clone, PartialEq)]
pub struct LightType {
    pub vehicle_light: Option<VehicleLight>,
    pub user_defined_light: Option<UserDefinedLight>,
}

/// A standard vehicle light.
#[derive(Debug, Clone, PartialEq)]
pub struct VehicleLight {
    pub vehicle_light_type: VehicleLightType,
}

/// A light of the author's.
#[derive(Debug, Clone, PartialEq)]
pub struct UserDefinedLight {
    pub user_defined_light_type: OSString,
}

/// The state of a light: its mode, intensity, flashing and color.
#[derive(Debug, Clone, PartialEq)]
pub struct LightState {
    pub mode: LightMode,
    pub luminous_intensity: Option<Double>,
    pub flashing_on_duration: Option<Double>,
    pub flashing_off_duration: Option<Double>,
    pub color: Option<Color>,
}

/// A color, in RGB or CMYK, with its kind.
#[derive(Debug, Clone, PartialEq)]
pub struct Color {
    pub color_type: ColorType,
    pub color_rgb: Option<ColorRgb>,
    pub color_cmyk: Option<ColorCmyk>,
}

/// A color in red, green and blue.
#[derive(Debug, Clone, PartialEq)]
pub struct ColorRgb {
    pub red: Double,
    pub green: Double,
    pub blue: Double,
}

/// A color in cyan, magenta, yellow and key.
#[derive(Debug, Clone, PartialEq)]
pub struct ColorCmyk {
    pub cyan: Double,
    pub magenta: Double,
    pub yellow: Double,
    pub key: Double,
}

/// Plays an animation.
#[derive(Debug, Clone, PartialEq)]
pub struct AnimationAction {
    pub loop_animation: Option<Boolean>,
    pub animation_duration: Option<Double>,
    pub animation_type: AnimationType,
    pub animation_state: Option<AnimationState>,
}

/// The animation that is played.
#[derive(Debug, Clone, PartialEq)]
pub struct AnimationType {
    pub component_animation: Option<ComponentAnimation>,
    pub pedestrian_animation: Option<PedestrianAnimation>,
    pub animation_file: Option<AnimationFile>,
    pub user_defined_animation: Option<UserDefinedAnimation>,
}

/// The animation of a component of a vehicle.
#[derive(Debug, Clone, PartialEq)]
pub struct ComponentAnimation {
    pub vehicle_component: Option<VehicleComponent>,
    pub user_defined_component: Option<UserDefinedComponent>,
}

/// A standard component of a vehicle.
#[derive(Debug, Clone, PartialEq)]
pub struct VehicleComponent {
    pub vehicle_component_type: VehicleComponentType,
}

/// A component of the author's.
#[derive(Debug, Clone, PartialEq)]
pub struct UserDefinedComponent {
    pub user_defined_component_type: OSString,
}

/// The animation of a pedestrian: a motion and gestures.
#[derive(Debug, Clone, PartialEq)]
pub struct PedestrianAnimation {
    pub motion: Option<PedestrianMotionType>,
    pub user_defined_pedestrian_animation: Option<OSString>,
    pub pedestrian_gestures: Vec<PedestrianGesture>,
}

/// A gesture of a pedestrian.
#[derive(Debug, Clone, PartialEq)]
pub struct PedestrianGesture {
    pub gesture: PedestrianGestureType,
}

/// An animation stored in a file.
#[derive(Debug, Clone, PartialEq)]
pub struct AnimationFile {
    pub time_offset: Option<Double>,
    pub file: File,
}

/// An animation of the author's.
#[derive(Debug, Clone, PartialEq)]
pub struct UserDefinedAnimation {
    pub user_defined_animation_type: OSString,
}

/// The state an animation is brought to.
#[derive(Debug, Clone, PartialEq)]
pub struct AnimationState {
    pub state: Double,
}

impl Default for VisibilityAction {
    /// Visible to graphics, sensors and traffic, with no sensor set.
    fn default() -> (r: VisibilityAction)
        ensures
            r.graphics == Value::<bool>::Literal(true),
            r.sensors == Value::<bool>::Literal(true),
            r.traffic == Value::<bool>::Literal(true),
            r.sensor_reference_set is None,
    {
        VisibilityAction {
            graphics: Value::Literal(true),
            sensors: Value::Literal(true),
            traffic: Value::Literal(true),
            sensor_reference_set: None,
        }
    }
}

impl Default for SensorReferenceSet {
    /// No sensors.
    fn default() -> (r: SensorReferenceSet)
        ensures
            r.sensor_references@.len() == 0,
    {
        SensorReferenceSet { sensor_references: Vec::new() }
    }
}

impl Default for AppearanceAction {
    /// Neither a light change nor an animation.
    fn default() -> (r: AppearanceAction)
        ensures
            r.light_state_action is None,
            r.animation_action is None,
    {
        AppearanceAction { light_state_action: None, animation_action: None }
    }
}

impl Default for LightType {
    /// No light chosen.
    fn default() -> (r: LightType)
        ensures
            r.vehicle_light is None,
            r.user_defined_light is None,
    {
        LightType { vehicle_light: None, user_defined_light: None }
    }
}

impl Default for LightStateAction {
    /// Turns the low beam on at once.
    fn default() -> (r: LightStateAction)
        ensures
            r.transition_time is None,
            r.light_type.vehicle_light == Some(VehicleLight { vehicle_light_type: VehicleLightType::LowBeam }),
            r.light_type.user_defined_light is None,
            r.light_state.mode == LightMode::On,
            r.light_state.luminous_intensity is None,
            r.light_state.flashing_on_duration is None,
            r.light_state.flashing_off_duration is None,
            r.light_state.color is None,
    {
        LightStateAction {
            transition_time: None,
            light_type: LightType {
                vehicle_light: Some(VehicleLight { vehicle_light_type: VehicleLightType::LowBeam }),
                user_defined_light: None,
            },
            light_state: LightState::default(),
        }
    }
}

impl Default for LightState {
    /// On, with nothing else given.
    fn default() -> (r: LightState)
        ensures
            r.mode == LightMode::On,
            r.luminous_intensity is None,
            r.flashing_on_duration is None,
            r.flashing_off_duration is None,
            r.color is None,
    {
        LightState {
            mode: LightMode::On,
            luminous_intensity: None,
            flashing_on_duration: None,
            flashing_off_duration: None,
            color: None,
        }
    }
}

impl Default for AnimationType {
    /// No animation chosen.
    fn default() -> (r: AnimationType)
        ensures
            r.component_animation is None,
            r.pedestrian_animation is None,
            r.animation_file is None,
            r.user_defined_animation is None,
    {
        AnimationType {
            component_animation: None,
            pedestrian_animation: None,
            animation_file: None,
            user_defined_animation: None,
        }
    }
}

impl Default for ComponentAnimation {
    /// No component chosen.
    fn default() -> (r: ComponentAnimation)
        ensures
            r.vehicle_component is None,
            r.user_defined_component is None,
    {
        ComponentAnimation { vehicle_component: None, user_defined_component: None }
    }
}

impl Default for PedestrianAnimation {
    /// No motion and no gestures.
    fn default() -> (r: PedestrianAnimation)
        ensures
            r.motion is None,
            r.user_defined_pedestrian_animation is None,
            r.pedestrian_gestures@.len() == 0,
    {
        PedestrianAnimation {
            motion: None,
            user_defined_pedestrian_animation: None,
            pedestrian_gestures: Vec::new(),
        }
    }
}

impl Default for AnimationAction {
    /// An animation with nothing chosen.
    fn default() -> (r: AnimationAction)
        ensures
            r.loop_animation is None,
            r.animation_duration is None,
            r.animation_type.component_animation is None,
            r.animation_type.pedestrian_animation is None,
            r.animation_type.animation_file is None,
            r.animation_type.user_defined_animation is None,
            r.animation_state is None,
    {
        AnimationAction {
            loop_animation: None,
            animation_duration: None,
            animation_type: AnimationType::default(),
            animation_state: None,
        }
    }
}

impl Default for AnimationState {
    /// The state `0.0`.
    fn default() -> (r: AnimationState)
        ensures
            is_real_literal(r.state, "0.0"@),
    {
        AnimationState { state: real_literal("0.0") }
    }
}

impl Default for SensorReference {
    /// The sensor `DefaultSensor`.
    fn default() -> (r: SensorReference)
        ensures
            is_str_literal(r.name, "DefaultSensor"@),
    {
        SensorReference { name: Value::Literal("DefaultSensor".to_owned()) }
    }
}

} // verus!
