//! Traffic actions: sources, sinks, swarms and areas of traffic, traffic signals, and
//! the definitions and distributions of the traffic they create.
use vstd::prelude::*;
use crate::basic::{
    is_real_literal, is_str_literal, real_literal, Boolean, Double, Int, OSString, Range, Real,
    UnsignedInt, Value,
};
use crate::controllers::{Controller, ControllerCatalogReference};
use crate::entities::selection::{is_default_entry, EntityDistribution};
use crate::entities::vehicle::Properties;
use crate::enums::{ControllerType, Role, VehicleCategory};
use crate::positions::Position;

verus! {

/// Creates traffic at a position at a rate.
#[derive(Debug, Clone, PartialEq)]
pub struct TrafficSourceAction {
    pub radius: Double,
    pub rate: Double,
    pub velocity: Option<Double>,
    pub speed: Option<Double>,
    pub position: Position,
    pub traffic_definition: Option<TrafficDefinition>,
    pub traffic_distribution: Option<TrafficDistribution>,
}

/// Removes traffic within a radius of a position.
#[derive(Debug, Clone, PartialEq)]
pub struct TrafficSinkAction {
    pub rate: Option<Double>,
    pub radius: Double,
    pub position: Position,
    pub traffic_definition: Option<TrafficDefinition>,
}

/// Keeps a swarm of traffic in an ellipse around a central object.
#[derive(Debug, Clone, PartialEq)]
pub struct TrafficSwarmAction {
    pub inner_radius: Double,
    pub number_of_vehicles: UnsignedInt,
    pub offset: Double,
    pub semi_major_axis: Double,
    pub semi_minor_axis: Double,
    pub velocity: Option<Double>,
    pub central_object: CentralSwarmObject,
    pub traffic_definition: Option<TrafficDefinition>,
    pub traffic_distribution: Option<TrafficDistribution>,
    pub initial_speed_range: Option<Range>,
    pub direction_of_travel_distribution: Option<DirectionOfTravelDistribution>,
}

/// Keeps a number of entities in an area.
#[derive(Debug, Clone, PartialEq)]
pub struct TrafficAreaAction {
    pub number_of_entities: UnsignedInt,
    pub continuous: Boolean,
    pub traffic_distribution: TrafficDistribution,
    pub traffic_area: TrafficArea,
}

/// An action on traffic signals.
#[derive(Debug, Clone, PartialEq)]
pub struct TrafficSignalAction {
    pub signal_action_choice: TrafficSignalActionChoice,
}

/// An action on a signal controller or on one signal.
#[derive(Debug, Clone, PartialEq)]
pub enum TrafficSignalActionChoice {
    TrafficSignalControllerAction(TrafficSignalControllerAction),
    TrafficSignalStateAction(TrafficSignalStateAction),
}

/// Sets the state of one signal.
#[derive(Debug, Clone, PartialEq)]
pub struct TrafficSignalStateAction {
    pub name: OSString,
    pub state: OSString,
}

/// Sets the phase of a signal controller.
#[derive(Debug, Clone, PartialEq)]
pub struct TrafficSignalControllerAction {
    pub traffic_signal_controller_ref: OSString,
    pub phase_ref: OSString,
}

/// A controller of traffic signals, with its phases.
#[derive(Debug, Clone, PartialEq)]
pub struct TrafficSignalController {
    pub name: OSString,
    pub delay: Option<Double>,
    pub reference: Option<OSString>,
    pub phases: Vec<Phase>,
}

/// A phase of a signal controller: how long it lasts and the states of the signals.
#[derive(Debug, Clone, PartialEq)]
pub struct Phase {
    pub name: OSString,
    pub duration: Double,
    pub traffic_signal_states: Vec<TrafficSignalState>,
    pub traffic_signal_group_state: Option<TrafficSignalGroupState>,
}

/// The state of one signal in a phase.
#[derive(Debug, Clone, PartialEq)]
pub struct TrafficSignalState {
    pub traffic_signal_id: OSString,
    pub state: OSString,
}

/// The state of a group of signals in a phase.
#[derive(Debug, Clone, PartialEq)]
pub struct TrafficSignalGroupState {
    pub state: OSString,
}

/// Stops all traffic actions.
#[derive(Debug, Clone, PartialEq)]
pub struct TrafficStopAction {}

/// The kinds of vehicles and controllers that traffic is made of.
#[derive(Debug, Clone, PartialEq)]
pub struct TrafficDefinition {
    pub name: OSString,
    pub vehicle_category_distribution: VehicleCategoryDistribution,
    pub vehicle_role_distribution: Option<VehicleRoleDistribution>,
    pub controller_distribution: ControllerDistribution,
}

/// A weighted distribution of vehicle roles.
#[derive(Debug, Clone, PartialEq)]
pub struct VehicleRoleDistribution {
    pub entries: Vec<VehicleRoleDistributionEntry>,
}

/// One weighted role.
#[derive(Debug, Clone, PartialEq)]
pub struct VehicleRoleDistributionEntry {
    pub weight: Double,
    pub role: Role,
}

/// A weighted distribution of vehicle categories.
#[derive(Debug, Clone, PartialEq)]
pub struct VehicleCategoryDistribution {
    pub entries: Vec<VehicleCategoryDistributionEntry>,
}

/// One weighted vehicle category.
#[derive(Debug, Clone, PartialEq)]
pub struct VehicleCategoryDistributionEntry {
    pub category: VehicleCategory,
    pub weight: Double,
}

/// A weighted distribution of controllers.
#[derive(Debug, Clone, PartialEq)]
pub struct ControllerDistribution {
    pub entries: Vec<ControllerDistributionEntry>,
}

/// One weighted controller, given in place or by reference.
#[derive(Debug, Clone, PartialEq)]
pub struct ControllerDistributionEntry {
    pub weight: Double,
    pub controller: Option<Controller>,
    pub catalog_reference: Option<ControllerCatalogReference>,
}

/// The object at the center of a swarm.
#[derive(Debug, Clone, PartialEq)]
pub struct CentralSwarmObject {
    pub entity_ref: OSString,
}

/// An area of traffic: a polygon or road ranges.
#[derive(Debug, Clone, PartialEq)]
pub struct TrafficArea {
    pub polygon: Option<Polygon>,
    pub road_range: Vec<RoadRange>,
}

/// A closed polygon.
#[derive(Debug, Clone, PartialEq)]
pub struct Polygon {
    pub position: Vec<Position>,
}

/// A range along a road between road cursors.
#[derive(Debug, Clone, PartialEq)]
pub struct RoadRange {
    pub length: Option<Double>,
    pub road_cursor: Vec<RoadCursor>,
}

/// A position along a road, possibly restricted to lanes.
#[derive(Debug, Clone, PartialEq)]
pub struct RoadCursor {
    pub road_id: OSString,
    pub s: Option<Double>,
    pub lane: Vec<Lane>,
}

/// A lane, by number.
#[derive(Debug, Clone, PartialEq)]
pub struct Lane {
    pub id: Int,
}

/// A weighted distribution of traffic entities.
#[derive(Debug, Clone, PartialEq)]
pub struct TrafficDistribution {
    pub traffic_distribution_entry: Vec<TrafficDistributionEntry>,
}

/// One weighted distribution of entities.
#[derive(Debug, Clone, PartialEq)]
pub struct TrafficDistributionEntry {
    pub weight: Double,
    pub entity_distribution: EntityDistribution,
    pub properties: Option<Properties>,
}

/// The shares of traffic that travel with and against the reference direction.
#[derive(Debug, Clone, PartialEq)]
pub struct DirectionOfTravelDistribution {
    pub same: Double,
    pub opposite: Double,
}

/// Whether `d` is the default traffic definition: `DefaultTrafficDefinition`, with the
/// default vehicle categories and controllers and no roles.
pub open spec fn is_default_definition(d: TrafficDefinition) -> bool {
    &&& is_str_literal(d.name, "DefaultTrafficDefinition"@)
    &&& is_mixed_categories(d.vehicle_category_distribution)
    &&& d.vehicle_role_distribution is None
    &&& is_default_controllers(d.controller_distribution)
}

/// Whether `d` is 70 % cars, 20 % trucks and 10 % vans.
pub open spec fn is_mixed_categories(d: VehicleCategoryDistribution) -> bool {
    &&& d.entries@.len() == 3
    &&& d.entries@[0].category == VehicleCategory::Car && is_real_literal(d.entries@[0].weight, "0.7"@)
    &&& d.entries@[1].category == VehicleCategory::Truck && is_real_literal(d.entries@[1].weight, "0.2"@)
    &&& d.entries@[2].category == VehicleCategory::Van && is_real_literal(d.entries@[2].weight, "0.1"@)
}

/// Whether `d` is the movement controller `DefaultTrafficController` alone, of weight
/// `1.0`.
pub open spec fn is_default_controllers(d: ControllerDistribution) -> bool {
    &&& d.entries@.len() == 1
    &&& is_real_literal(d.entries@[0].weight, "1.0"@)
    &&& d.entries@[0].controller matches Some(c) && is_str_literal(c.name, "DefaultTrafficController"@)
        && c.controller_type == Some(ControllerType::Movement) && c.parameter_declarations is None
        && c.properties is None
    &&& d.entries@[0].catalog_reference is None
}

impl Default for TrafficSourceAction {
    /// Ten vehicles a minute within 10 m of a position with no branch chosen, at
    /// 50 km/h, of the default traffic.
    fn default() -> (r: TrafficSourceAction)
        ensures
            is_real_literal(r.radius, "10.0"@),
            is_real_literal(r.rate, "10.0"@),
            r.velocity matches Some(v) && is_real_literal(v, "50.0"@),
            r.speed is None,
            Position::is_empty(r.position),
            r.traffic_definition matches Some(d) && is_default_definition(d),
            r.traffic_distribution is None,
    {
        TrafficSourceAction {
            radius: real_literal("10.0"),
            rate: real_literal("10.0"),
            velocity: Some(real_literal("50.0")),
            speed: None,
            position: Position::empty(),
            traffic_definition: Some(TrafficDefinition::default()),
            traffic_distribution: None,
        }
    }
}

impl Default for TrafficSinkAction {
    /// Ten vehicles a minute within 50 m of a position with no branch chosen.
    fn default() -> (r: TrafficSinkAction)
        ensures
            r.rate matches Some(v) && is_real_literal(v, "10.0"@),
            is_real_literal(r.radius, "50.0"@),
            Position::is_empty(r.position),
            r.traffic_definition is None,
    {
        TrafficSinkAction {
            rate: Some(real_literal("10.0")),
            radius: real_literal("50.0"),
            position: Position::empty(),
            traffic_definition: None,
        }
    }
}

impl Default for TrafficSwarmAction {
    /// Twenty vehicles of the default traffic in a 100 m by 50 m ellipse around
    /// `SwarmCenter`, none closer than 10 m.
    fn default() -> (r: TrafficSwarmAction)
        ensures
            is_real_literal(r.inner_radius, "10.0"@),
            r.number_of_vehicles == Value::<u32>::Literal(20),
            is_real_literal(r.offset, "0.0"@),
            is_real_literal(r.semi_major_axis, "100.0"@),
            is_real_literal(r.semi_minor_axis, "50.0"@),
            r.velocity is None,
            is_str_literal(r.central_object.entity_ref, "SwarmCenter"@),
            r.traffic_definition matches Some(d) && is_default_definition(d),
            r.traffic_distribution is None,
            r.initial_speed_range is None,
            r.direction_of_travel_distribution is None,
    {
        TrafficSwarmAction {
            inner_radius: real_literal("10.0"),
            number_of_vehicles: Value::Literal(20),
            offset: real_literal("0.0"),
            semi_major_axis: real_literal("100.0"),
            semi_minor_axis: real_literal("50.0"),
            velocity: None,
            central_object: CentralSwarmObject::default(),
            traffic_definition: Some(TrafficDefinition::default()),
            traffic_distribution: None,
            initial_speed_range: None,
            direction_of_travel_distribution: None,
        }
    }
}

impl Default for TrafficSignalAction {
    /// Sets the signal `DefaultSignal` to `green`.
    fn default() -> (r: TrafficSignalAction)
        ensures
            r.signal_action_choice matches TrafficSignalActionChoice::TrafficSignalStateAction(a)
                && is_str_literal(a.name, "DefaultSignal"@) && is_str_literal(a.state, "green"@),
    {
        TrafficSignalAction {
            signal_action_choice: TrafficSignalActionChoice::TrafficSignalStateAction(
                TrafficSignalStateAction::default(),
            ),
        }
    }
}

impl Default for TrafficSignalStateAction {
    /// Sets the signal `DefaultSignal` to `green`.
    fn default() -> (r: TrafficSignalStateAction)
        ensures
            is_str_literal(r.name, "DefaultSignal"@),
            is_str_literal(r.state, "green"@),
    {
        TrafficSignalStateAction {
            name: Value::Literal("DefaultSignal".to_owned()),
            state: Value::Literal("green".to_owned()),
        }
    }
}

impl Default for TrafficSignalControllerAction {
    /// Sets the controller `DefaultController` to phase `Phase1`.
    fn default() -> (r: TrafficSignalControllerAction)
        ensures
            is_str_literal(r.traffic_signal_controller_ref, "DefaultController"@),
            is_str_literal(r.phase_ref, "Phase1"@),
    {
        TrafficSignalControllerAction {
            traffic_signal_controller_ref: Value::Literal("DefaultController".to_owned()),
            phase_ref: Value::Literal("Phase1".to_owned()),
        }
    }
}

impl Default for TrafficSignalController {
    /// The controller `DefaultController` with no delay, reference or phases.
    fn default() -> (r: TrafficSignalController)
        ensures
            is_str_literal(r.name, "DefaultController"@),
            r.delay is None,
            r.reference is None,
            r.phases@.len() == 0,
    {
        TrafficSignalController {
            name: Value::Literal("DefaultController".to_owned()),
            delay: None,
            reference: None,
            phases: Vec::new(),
        }
    }
}

impl Default for Phase {
    /// The phase `DefaultPhase` of 30 s with no signal states.
    fn default() -> (r: Phase)
        ensures
            is_str_literal(r.name, "DefaultPhase"@),
            is_real_literal(r.duration, "30.0"@),
            r.traffic_signal_states@.len() == 0,
            r.traffic_signal_group_state is None,
    {
        Phase {
            name: Value::Literal("DefaultPhase".to_owned()),
            duration: real_literal("30.0"),
            traffic_signal_states: Vec::new(),
            traffic_signal_group_state: None,
        }
    }
}

impl Default for TrafficSignalState {
    /// The signal `signal_1` in state `green`.
    fn default() -> (r: TrafficSignalState)
        ensures
            is_str_literal(r.traffic_signal_id, "signal_1"@),
            is_str_literal(r.state, "green"@),
    {
        TrafficSignalState {
            traffic_signal_id: Value::Literal("signal_1".to_owned()),
            state: Value::Literal("green".to_owned()),
        }
    }
}

impl Default for TrafficSignalGroupState {
    /// The state `green`.
    fn default() -> (r: TrafficSignalGroupState)
        ensures
            is_str_literal(r.state, "green"@),
    {
        TrafficSignalGroupState { state: Value::Literal("green".to_owned()) }
    }
}

impl Default for TrafficStopAction {
    /// The stop action.
    fn default() -> (r: TrafficStopAction)
        ensures
            r == (TrafficStopAction {}),
    {
        TrafficStopAction {}
    }
}

impl Default for TrafficDefinition {
    /// The default traffic definition.
    fn default() -> (r: TrafficDefinition)
        ensures
            is_default_definition(r),
    {
        TrafficDefinition {
            name: Value::Literal("DefaultTrafficDefinition".to_owned()),
            vehicle_category_distribution: VehicleCategoryDistribution::default(),
            vehicle_role_distribution: None,
            controller_distribution: ControllerDistribution::default(),
        }
    }
}

impl Default for VehicleRoleDistribution {
    /// No roles.
    fn default() -> (r: VehicleRoleDistribution)
        ensures
            r.entries@.len() == 0,
    {
        VehicleRoleDistribution { entries: Vec::new() }
    }
}

impl Default for VehicleCategoryDistribution {
    /// 70 % cars, 20 % trucks and 10 % vans.
    fn default() -> (r: VehicleCategoryDistribution)
        ensures
            is_mixed_categories(r),
    {
        let mut entries: Vec<VehicleCategoryDistributionEntry> = Vec::new();
        entries.push(VehicleCategoryDistributionEntry { category: VehicleCategory::Car, weight: real_literal("0.7") });
        entries.push(VehicleCategoryDistributionEntry { category: VehicleCategory::Truck, weight: real_literal("0.2") });
        entries.push(VehicleCategoryDistributionEntry { category: VehicleCategory::Van, weight: real_literal("0.1") });
        VehicleCategoryDistribution { entries }
    }
}

impl Default for ControllerDistribution {
    /// The movement controller `DefaultTrafficController` alone.
    fn default() -> (r: ControllerDistribution)
        ensures
            is_default_controllers(r),
    {
        let mut entries: Vec<ControllerDistributionEntry> = Vec::new();
        entries.push(ControllerDistributionEntry {
            weight: real_literal("1.0"),
            controller: Some(Controller::new("DefaultTrafficController".to_owned(), ControllerType::Movement)),
            catalog_reference: None,
        });
        ControllerDistribution { entries }
    }
}

impl Default for CentralSwarmObject {
    /// The entity `SwarmCenter`.
    fn default() -> (r: CentralSwarmObject)
        ensures
            is_str_literal(r.entity_ref, "SwarmCenter"@),
    {
        CentralSwarmObject { entity_ref: Value::Literal("SwarmCenter".to_owned()) }
    }
}

impl Default for TrafficArea {
    /// The default polygon.
    fn default() -> (r: TrafficArea)
        ensures
            r.polygon matches Some(p) && p.position@.len() == 3
                && forall|i: int| 0 <= i < 3 ==> Position::is_empty(#[trigger] p.position@[i]),
            r.road_range@.len() == 0,
    {
        TrafficArea { polygon: Some(Polygon::default()), road_range: Vec::new() }
    }
}

impl Default for Polygon {
    /// Three positions with no branch chosen.
    fn default() -> (r: Polygon)
        ensures
            r.position@.len() == 3,
            forall|i: int| 0 <= i < 3 ==> Position::is_empty(#[trigger] r.position@[i]),
    {
        let mut position: Vec<Position> = Vec::new();
        position.push(Position::empty());
        position.push(Position::empty());
        position.push(Position::empty());
        Polygon { position }
    }
}

impl Default for RoadRange {
    /// Two default road cursors, with no length.
    fn default() -> (r: RoadRange)
        ensures
            r.length is None,
            r.road_cursor@.len() == 2,
            forall|i: int| 0 <= i < 2 ==> {
                &&& is_str_literal((#[trigger] r.road_cursor@[i]).road_id, "DefaultRoad"@)
                &&& r.road_cursor@[i].s is None
                &&& r.road_cursor@[i].lane@.len() == 0
            },
    {
        let mut road_cursor: Vec<RoadCursor> = Vec::new();
        road_cursor.push(RoadCursor::default());
        road_cursor.push(RoadCursor::default());
        RoadRange { length: None, road_cursor }
    }
}

impl Default for RoadCursor {
    /// The start of road `DefaultRoad`, in every lane.
    fn default() -> (r: RoadCursor)
        ensures
            is_str_literal(r.road_id, "DefaultRoad"@),
            r.s is None,
            r.lane@.len() == 0,
    {
        RoadCursor { road_id: Value::Literal("DefaultRoad".to_owned()), s: None, lane: Vec::new() }
    }
}

impl Default for Lane {
    /// Lane 0.
    fn default() -> (r: Lane)
        ensures
            r.id == Value::<i32>::Literal(0),
    {
        Lane { id: Value::Literal(0) }
    }
}

impl Default for TrafficDistribution {
    /// The default entry alone.
    fn default() -> (r: TrafficDistribution)
        ensures
            r.traffic_distribution_entry@.len() == 1,
            is_real_literal(r.traffic_distribution_entry@[0].weight, "1.0"@),
            r.traffic_distribution_entry@[0].entity_distribution.entries@.len() == 1,
            is_default_entry(r.traffic_distribution_entry@[0].entity_distribution.entries@[0]),
            r.traffic_distribution_entry@[0].properties is None,
    {
        let mut traffic_distribution_entry: Vec<TrafficDistributionEntry> = Vec::new();
        traffic_distribution_entry.push(TrafficDistributionEntry::default());
        TrafficDistribution { traffic_distribution_entry }
    }
}

impl Default for TrafficDistributionEntry {
    /// The default entity distribution with weight `1.0`.
    fn default() -> (r: TrafficDistributionEntry)
        ensures
            is_real_literal(r.weight, "1.0"@),
            r.entity_distribution.entries@.len() == 1,
            is_default_entry(r.entity_distribution.entries@[0]),
            r.properties is None,
    {
        TrafficDistributionEntry {
            weight: real_literal("1.0"),
            entity_distribution: EntityDistribution::default(),
            properties: None,
        }
    }
}

impl Default for DirectionOfTravelDistribution {
    /// All traffic in the reference direction.
    fn default() -> (r: DirectionOfTravelDistribution)
        ensures
            is_real_literal(r.same, "1.0"@),
            is_real_literal(r.opposite, "0.0"@),
    {
        DirectionOfTravelDistribution { same: real_literal("1.0"), opposite: real_literal("0.0") }
    }
}

impl Default for TrafficAreaAction {
    /// One entity of the default distribution in the default area, not continuous.
    fn default() -> (r: TrafficAreaAction)
        ensures
            r.number_of_entities == Value::<u32>::Literal(1),
            r.continuous == Value::<bool>::Literal(false),
            r.traffic_distribution.traffic_distribution_entry@.len() == 1,
            r.traffic_area.polygon matches Some(p) && p.position@.len() == 3,
            r.traffic_area.road_range@.len() == 0,
    {
        TrafficAreaAction {
            number_of_entities: Value::Literal(1),
            continuous: Value::Literal(false),
            traffic_distribution: TrafficDistribution::default(),
            traffic_area: TrafficArea::default(),
        }
    }
}

impl TrafficSourceAction {
    /// The source of `traffic_definition` at `position`, within `radius`, at `rate`.
    pub fn new(radius: Real, rate: Real, position: Position, traffic_definition: TrafficDefinition) -> (r: TrafficSourceAction)
        ensures
            r == (TrafficSourceAction {
                radius: Value::Literal(radius),
                rate: Value::Literal(rate),
                velocity: None,
                speed: None,
                position,
                traffic_definition: Some(traffic_definition),
                traffic_distribution: None,
            }),
    {
        TrafficSourceAction {
            radius: Value::Literal(radius),
            rate: Value::Literal(rate),
            velocity: None,
            speed: None,
            position,
            traffic_definition: Some(traffic_definition),
            traffic_distribution: None,
        }
    }

    /// The source of `traffic_definition` at `position`, within `radius`, at `rate`,
    /// of vehicles at `velocity`.
    pub fn with_velocity(radius: Real, rate: Real, velocity: Real, position: Position, traffic_definition: TrafficDefinition) -> (r: TrafficSourceAction)
        ensures
            r == (TrafficSourceAction {
                radius: Value::Literal(radius),
                rate: Value::Literal(rate),
                velocity: Some(Value::Literal(velocity)),
                speed: None,
                position,
                traffic_definition: Some(traffic_definition),
                traffic_distribution: None,
            }),
    {
        TrafficSourceAction {
            radius: Value::Literal(radius),
            rate: Value::Literal(rate),
            velocity: Some(Value::Literal(velocity)),
            speed: None,
            position,
            traffic_definition: Some(traffic_definition),
            traffic_distribution: None,
        }
    }

    /// This source with the distribution `traffic_distribution`.
    pub fn with_traffic_distribution(self, traffic_distribution: TrafficDistribution) -> (r: TrafficSourceAction)
        ensures
            r == (TrafficSourceAction { traffic_distribution: Some(traffic_distribution), ..self }),
    {
        let mut s = self;
        s.traffic_distribution = Some(traffic_distribution);
        s
    }
}

impl TrafficSinkAction {
    /// The sink at `position`, within `radius`, at `rate`.
    pub fn new(rate: Real, radius: Real, position: Position) -> (r: TrafficSinkAction)
        ensures
            r == (TrafficSinkAction {
                rate: Some(Value::Literal(rate)),
                radius: Value::Literal(radius),
                position,
                traffic_definition: None,
            }),
    {
        TrafficSinkAction { rate: Some(Value::Literal(rate)), radius: Value::Literal(radius), position, traffic_definition: None }
    }

    /// The sink of `traffic_definition` at `position`, within `radius`, at `rate`.
    pub fn with_traffic_definition(rate: Real, radius: Real, position: Position, traffic_definition: TrafficDefinition) -> (r: TrafficSinkAction)
        ensures
            r == (TrafficSinkAction {
                rate: Some(Value::Literal(rate)),
                radius: Value::Literal(radius),
                position,
                traffic_definition: Some(traffic_definition),
            }),
    {
        TrafficSinkAction {
            rate: Some(Value::Literal(rate)),
            radius: Value::Literal(radius),
            position,
            traffic_definition: Some(traffic_definition),
        }
    }
}

impl TrafficSwarmAction {
    /// A swarm of `number_of_vehicles` in an ellipse with semi-axes `semi_major_axis`
    /// and `semi_minor_axis` around `central_object`.
    pub fn new(central_object: &str, semi_major_axis: Real, semi_minor_axis: Real, number_of_vehicles: u32) -> (r: TrafficSwarmAction)
        ensures
            is_real_literal(r.inner_radius, "0.0"@),
            r.number_of_vehicles == Value::<u32>::Literal(number_of_vehicles),
            is_real_literal(r.offset, "0.0"@),
            r.semi_major_axis == Value::Literal(semi_major_axis),
            r.semi_minor_axis == Value::Literal(semi_minor_axis),
            r.velocity is None,
            is_str_literal(r.central_object.entity_ref, central_object@),
            r.traffic_definition is None,
            r.traffic_distribution is None,
            r.initial_speed_range is None,
            r.direction_of_travel_distribution is None,
    {
        TrafficSwarmAction {
            inner_radius: real_literal("0.0"),
            number_of_vehicles: Value::Literal(number_of_vehicles),
            offset: real_literal("0.0"),
            semi_major_axis: Value::Literal(semi_major_axis),
            semi_minor_axis: Value::Literal(semi_minor_axis),
            velocity: None,
            central_object: CentralSwarmObject { entity_ref: Value::Literal(central_object.to_owned()) },
            traffic_definition: None,
            traffic_distribution: None,
            initial_speed_range: None,
            direction_of_travel_distribution: None,
        }
    }

    /// This swarm with inner radius `radius`.
    pub fn with_inner_radius(self, radius: Real) -> (r: TrafficSwarmAction)
        ensures
            r == (TrafficSwarmAction { inner_radius: Value::Literal(radius), ..self }),
    {
        let mut s = self;
        s.inner_radius = Value::Literal(radius);
        s
    }

    /// This swarm with offset `offset`.
    pub fn with_offset(self, offset: Real) -> (r: TrafficSwarmAction)
        ensures
            r == (TrafficSwarmAction { offset: Value::Literal(offset), ..self }),
    {
        let mut s = self;
        s.offset = Value::Literal(offset);
        s
    }

    /// This swarm with velocity `velocity`.
    pub fn with_velocity(self, velocity: Real) -> (r: TrafficSwarmAction)
        ensures
            r == (TrafficSwarmAction { velocity: Some(Value::Literal(velocity)), ..self }),
    {
        let mut s = self;
        s.velocity = Some(Value::Literal(velocity));
        s
    }

    /// This swarm of `traffic_definition`.
    pub fn with_traffic_definition(self, traffic_definition: TrafficDefinition) -> (r: TrafficSwarmAction)
        ensures
            r == (TrafficSwarmAction { traffic_definition: Some(traffic_definition), ..self }),
    {
        let mut s = self;
        s.traffic_definition = Some(traffic_definition);
        s
    }

    /// This swarm of `traffic_distribution`.
    pub fn with_traffic_distribution(self, traffic_distribution: TrafficDistribution) -> (r: TrafficSwarmAction)
        ensures
            r == (TrafficSwarmAction { traffic_distribution: Some(traffic_distribution), ..self }),
    {
        let mut s = self;
        s.traffic_distribution = Some(traffic_distribution);
        s
    }

    /// This swarm with initial speeds in `initial_speed_range`.
    pub fn with_initial_speed_range(self, initial_speed_range: Range) -> (r: TrafficSwarmAction)
        ensures
            r == (TrafficSwarmAction { initial_speed_range: Some(initial_speed_range), ..self }),
    {
        let mut s = self;
        s.initial_speed_range = Some(initial_speed_range);
        s
    }

    /// This swarm with directions of travel distributed as
    /// `direction_of_travel_distribution`.
    pub fn with_direction_of_travel_distribution(self, direction_of_travel_distribution: DirectionOfTravelDistribution) -> (r: TrafficSwarmAction)
        ensures
            r == (TrafficSwarmAction { direction_of_travel_distribution: Some(direction_of_travel_distribution), ..self }),
    {
        let mut s = self;
        s.direction_of_travel_distribution = Some(direction_of_travel_distribution);
        s
    }

    /// This swarm around the entity `entity_ref`.
    pub fn with_central_swarm_object(self, entity_ref: &str) -> (r: TrafficSwarmAction)
        ensures
            is_str_literal(r.central_object.entity_ref, entity_ref@),
            r == (TrafficSwarmAction { central_object: r.central_object, ..self }),
    {
        let mut s = self;
        s.central_object = CentralSwarmObject { entity_ref: Value::Literal(entity_ref.to_owned()) };
        s
    }
}

impl TrafficAreaAction {
    /// Keeps `number_of_entities` of `traffic_distribution` in `traffic_area`.
    pub fn new(number_of_entities: u32, continuous: bool, traffic_distribution: TrafficDistribution, traffic_area: TrafficArea) -> (r: TrafficAreaAction)
        ensures
            r == (TrafficAreaAction {
                number_of_entities: Value::Literal(number_of_entities),
                continuous: Value::Literal(continuous),
                traffic_distribution,
                traffic_area,
            }),
    {
        TrafficAreaAction {
            number_of_entities: Value::Literal(number_of_entities),
            continuous: Value::Literal(continuous),
            traffic_distribution,
            traffic_area,
        }
    }
}

impl TrafficSignalAction {
    /// Sets the signal `name` to `state`.
    pub fn state_action(name: String, state: String) -> (r: TrafficSignalAction)
        ensures
            r == (TrafficSignalAction {
                signal_action_choice: TrafficSignalActionChoice::TrafficSignalStateAction(TrafficSignalStateAction {
                    name: Value::Literal(name),
                    state: Value::Literal(state),
                }),
            }),
    {
        TrafficSignalAction {
            signal_action_choice: TrafficSignalActionChoice::TrafficSignalStateAction(TrafficSignalStateAction {
                name: Value::Literal(name),
                state: Value::Literal(state),
            }),
        }
    }

    /// Sets the controller `controller_ref` to phase `phase_ref`.
    pub fn controller_action(controller_ref: String, phase_ref: String) -> (r: TrafficSignalAction)
        ensures
            r == (TrafficSignalAction {
                signal_action_choice: TrafficSignalActionChoice::TrafficSignalControllerAction(
                    TrafficSignalControllerAction {
                        traffic_signal_controller_ref: Value::Literal(controller_ref),
                        phase_ref: Value::Literal(phase_ref),
                    },
                ),
            }),
    {
        TrafficSignalAction {
            signal_action_choice: TrafficSignalActionChoice::TrafficSignalControllerAction(
                TrafficSignalControllerAction {
                    traffic_signal_controller_ref: Value::Literal(controller_ref),
                    phase_ref: Value::Literal(phase_ref),
                },
            ),
        }
    }
}

impl TrafficSignalController {
    /// The controller `name` with no delay, reference or phases.
    pub fn new(name: &str) -> (r: TrafficSignalController)
        ensures
            is_str_literal(r.name, name@),
            r.delay is None,
            r.reference is None,
            r.phases@.len() == 0,
    {
        TrafficSignalController { name: Value::Literal(name.to_owned()), delay: None, reference: None, phases: Vec::new() }
    }

    /// This controller with delay `delay`.
    pub fn with_delay(self, delay: Real) -> (r: TrafficSignalController)
        ensures
            r == (TrafficSignalController { delay: Some(Value::Literal(delay)), ..self }),
    {
        let mut s = self;
        s.delay = Some(Value::Literal(delay));
        s
    }

    /// This controller referring to the controller `reference`.
    pub fn with_reference(self, reference: &str) -> (r: TrafficSignalController)
        ensures
            r.reference matches Some(v) && is_str_literal(v, reference@),
            r.name == self.name,
            r.delay == self.delay,
            r.phases == self.phases,
    {
        let mut s = self;
        s.reference = Some(Value::Literal(reference.to_owned()));
        s
    }

    /// This controller with `phase` appended to its phases.
    pub fn add_phase(self, phase: Phase) -> (r: TrafficSignalController)
        ensures
            r.phases@ == self.phases@.push(phase),
            r.name == self.name,
            r.delay == self.delay,
            r.reference == self.reference,
    {
        let mut s = self;
        s.phases.push(phase);
        s
    }

    /// This controller with the phases `phases`.
    pub fn with_phases(self, phases: Vec<Phase>) -> (r: TrafficSignalController)
        ensures
            r == (TrafficSignalController { phases, ..self }),
    {
        let mut s = self;
        s.phases = phases;
        s
    }
}

impl Phase {
    /// The phase `name` lasting `duration`, with no signal states.
    pub fn new(name: &str, duration: Real) -> (r: Phase)
        ensures
            is_str_literal(r.name, name@),
            r.duration == Value::Literal(duration),
            r.traffic_signal_states@.len() == 0,
            r.traffic_signal_group_state is None,
    {
        Phase {
            name: Value::Literal(name.to_owned()),
            duration: Value::Literal(duration),
            traffic_signal_states: Vec::new(),
            traffic_signal_group_state: None,
        }
    }

    /// This phase with signal `signal_id` in state `state` appended.
    pub fn add_signal_state(self, signal_id: &str, state: &str) -> (r: Phase)
        ensures
            r.traffic_signal_states@.len() == self.traffic_signal_states@.len() + 1,
            r.traffic_signal_states@.drop_last() == self.traffic_signal_states@,
            is_str_literal(r.traffic_signal_states@.last().traffic_signal_id, signal_id@),
            is_str_literal(r.traffic_signal_states@.last().state, state@),
            r.name == self.name,
            r.duration == self.duration,
            r.traffic_signal_group_state == self.traffic_signal_group_state,
    {
        let mut s = self;
        s.traffic_signal_states.push(TrafficSignalState {
            traffic_signal_id: Value::Literal(signal_id.to_owned()),
            state: Value::Literal(state.to_owned()),
        });
        assert(s.traffic_signal_states@.drop_last() =~= self.traffic_signal_states@);
        s
    }

    /// This phase with the group of signals in state `state`.
    pub fn with_group_state(self, state: &str) -> (r: Phase)
        ensures
            r.traffic_signal_group_state matches Some(g) && is_str_literal(g.state, state@),
            r.name == self.name,
            r.duration == self.duration,
            r.traffic_signal_states == self.traffic_signal_states,
    {
        let mut s = self;
        s.traffic_signal_group_state = Some(TrafficSignalGroupState { state: Value::Literal(state.to_owned()) });
        s
    }

    /// This phase with a signal state appended for each pair of signal and state, in
    /// order.
    pub fn with_signal_states(self, states: Vec<(String, String)>) -> (r: Phase)
        ensures
            r.traffic_signal_states@.len() == self.traffic_signal_states@.len() + states@.len(),
            r.traffic_signal_states@.take(self.traffic_signal_states@.len() as int) == self.traffic_signal_states@,
            forall|i: int| 0 <= i < states@.len() ==> #[trigger] r.traffic_signal_states@[self.traffic_signal_states@.len() + i] == (
                TrafficSignalState { traffic_signal_id: Value::Literal(states@[i].0), state: Value::Literal(states@[i].1) }),
            r.name == self.name,
            r.duration == self.duration,
            r.traffic_signal_group_state == self.traffic_signal_group_state,
    {
        let ghost all = states@;
        let ghost before = self.traffic_signal_states@;
        let n = self.traffic_signal_states.len();
        let mut s = self;
        for pair in it: states.into_iter()
            invariant
                it.seq() == all,
                s.traffic_signal_states@.len() == before.len() + it.index(),
                n == before.len(),
                s.traffic_signal_states@.take(before.len() as int) == before,
                forall|i: int| 0 <= i < it.index() ==> #[trigger] s.traffic_signal_states@[before.len() + i] == (
                    TrafficSignalState { traffic_signal_id: Value::Literal(all[i].0), state: Value::Literal(all[i].1) }),
                s.name == self.name,
                s.duration == self.duration,
                s.traffic_signal_group_state == self.traffic_signal_group_state,
        {
            let (signal_id, state) = pair;
            let ghost prev = s.traffic_signal_states@;
            s.traffic_signal_states.push(TrafficSignalState {
                traffic_signal_id: Value::Literal(signal_id),
                state: Value::Literal(state),
            });
            assert(s.traffic_signal_states@.take(before.len() as int) =~= prev.take(before.len() as int));
        }
        s
    }
}

impl TrafficSignalState {
    /// The signal `signal_id` in state `state`.
    pub fn new(signal_id: &str, state: &str) -> (r: TrafficSignalState)
        ensures
            is_str_literal(r.traffic_signal_id, signal_id@),
            is_str_literal(r.state, state@),
    {
        TrafficSignalState { traffic_signal_id: Value::Literal(signal_id.to_owned()), state: Value::Literal(state.to_owned()) }
    }
}

impl TrafficSignalGroupState {
    /// The state `state`.
    pub fn new(state: &str) -> (r: TrafficSignalGroupState)
        ensures
            is_str_literal(r.state, state@),
    {
        TrafficSignalGroupState { state: Value::Literal(state.to_owned()) }
    }
}

impl TrafficSignalStateAction {
    /// Sets the signal `name` to `state`.
    pub fn new(name: &str, state: &str) -> (r: TrafficSignalStateAction)
        ensures
            is_str_literal(r.name, name@),
            is_str_literal(r.state, state@),
    {
        TrafficSignalStateAction { name: Value::Literal(name.to_owned()), state: Value::Literal(state.to_owned()) }
    }
}

impl TrafficSignalControllerAction {
    /// Sets the controller `controller_ref` to phase `phase_ref`.
    pub fn new(controller_ref: &str, phase_ref: &str) -> (r: TrafficSignalControllerAction)
        ensures
            is_str_literal(r.traffic_signal_controller_ref, controller_ref@),
            is_str_literal(r.phase_ref, phase_ref@),
    {
        TrafficSignalControllerAction {
            traffic_signal_controller_ref: Value::Literal(controller_ref.to_owned()),
            phase_ref: Value::Literal(phase_ref.to_owned()),
        }
    }
}

impl TrafficDefinition {
    /// The default traffic definition with the vehicle categories `distribution`.
    pub fn with_vehicles(distribution: VehicleCategoryDistribution) -> (r: TrafficDefinition)
        ensures
            is_str_literal(r.name, "DefaultTrafficDefinition"@),
            r.vehicle_category_distribution == distribution,
            r.vehicle_role_distribution is None,
            is_default_controllers(r.controller_distribution),
    {
        TrafficDefinition {
            name: Value::Literal("DefaultTrafficDefinition".to_owned()),
            vehicle_category_distribution: distribution,
            vehicle_role_distribution: None,
            controller_distribution: ControllerDistribution::default(),
        }
    }

    /// The default traffic definition with the controllers `distribution`.
    pub fn with_controllers(distribution: ControllerDistribution) -> (r: TrafficDefinition)
        ensures
            is_str_literal(r.name, "DefaultTrafficDefinition"@),
            is_mixed_categories(r.vehicle_category_distribution),
            r.vehicle_role_distribution is None,
            r.controller_distribution == distribution,
    {
        TrafficDefinition {
            name: Value::Literal("DefaultTrafficDefinition".to_owned()),
            vehicle_category_distribution: VehicleCategoryDistribution::default(),
            vehicle_role_distribution: None,
            controller_distribution: distribution,
        }
    }

    /// The traffic definition with the vehicle categories `vehicles` and the
    /// controllers `controllers`.
    pub fn with_both(vehicles: VehicleCategoryDistribution, controllers: ControllerDistribution) -> (r: TrafficDefinition)
        ensures
            is_str_literal(r.name, "DefaultTrafficDefinition"@),
            r.vehicle_category_distribution == vehicles,
            r.vehicle_role_distribution is None,
            r.controller_distribution == controllers,
    {
        TrafficDefinition {
            name: Value::Literal("DefaultTrafficDefinition".to_owned()),
            vehicle_category_distribution: vehicles,
            vehicle_role_distribution: None,
            controller_distribution: controllers,
        }
    }
}

impl VehicleCategoryDistribution {
    /// The category `category` alone, with weight `weight`.
    pub fn single_category(category: VehicleCategory, weight: Real) -> (r: VehicleCategoryDistribution)
        ensures
            r.entries@ == seq![VehicleCategoryDistributionEntry { category, weight: Value::Literal(weight) }],
    {
        let mut entries: Vec<VehicleCategoryDistributionEntry> = Vec::new();
        entries.push(VehicleCategoryDistributionEntry { category, weight: Value::Literal(weight) });
        VehicleCategoryDistribution { entries }
    }

    /// 70 % cars, 20 % trucks and 10 % vans.
    pub fn mixed_traffic() -> (r: VehicleCategoryDistribution)
        ensures
            is_mixed_categories(r),
    {
        VehicleCategoryDistribution::default()
    }

    /// 85 % cars, 10 % buses and 5 % vans.
    pub fn urban_traffic() -> (r: VehicleCategoryDistribution)
        ensures
            r.entries@.len() == 3,
            r.entries@[0].category == VehicleCategory::Car && is_real_literal(r.entries@[0].weight, "0.85"@),
            r.entries@[1].category == VehicleCategory::Bus && is_real_literal(r.entries@[1].weight, "0.1"@),
            r.entries@[2].category == VehicleCategory::Van && is_real_literal(r.entries@[2].weight, "0.05"@),
    {
        let mut entries: Vec<VehicleCategoryDistributionEntry> = Vec::new();
        entries.push(VehicleCategoryDistributionEntry { category: VehicleCategory::Car, weight: real_literal("0.85") });
        entries.push(VehicleCategoryDistributionEntry { category: VehicleCategory::Bus, weight: real_literal("0.1") });
        entries.push(VehicleCategoryDistributionEntry { category: VehicleCategory::Van, weight: real_literal("0.05") });
        VehicleCategoryDistribution { entries }
    }
}

impl ControllerDistribution {
    /// The movement controller `controller` alone, with weight `weight`.
    pub fn single_controller(controller: String, weight: Real) -> (r: ControllerDistribution)
        ensures
            r.entries@.len() == 1,
            r.entries@[0].weight == Value::Literal(weight),
            r.entries@[0].controller matches Some(c) && c.name == Value::<String>::Literal(controller)
                && c.controller_type == Some(ControllerType::Movement) && c.parameter_declarations is None
                && c.properties is None,
            r.entries@[0].catalog_reference is None,
    {
        let mut entries: Vec<ControllerDistributionEntry> = Vec::new();
        entries.push(ControllerDistributionEntry {
            weight: Value::Literal(weight),
            controller: Some(Controller::new(controller, ControllerType::Movement)),
            catalog_reference: None,
        });
        ControllerDistribution { entries }
    }
}

impl CentralSwarmObject {
    /// The entity `entity_ref`.
    pub fn new(entity_ref: &str) -> (r: CentralSwarmObject)
        ensures
            is_str_literal(r.entity_ref, entity_ref@),
    {
        CentralSwarmObject { entity_ref: Value::Literal(entity_ref.to_owned()) }
    }
}

} // verus!
