//! Conditions on values rather than entities: parameters and variables, simulation
//! time and time of day, storyboard states, traffic signals, and conditions of the
//! author's.
use vstd::prelude::*;
use crate::basic::{is_str_literal, DateTime, Double, OSString, Real, Value};
use crate::enums::{Rule, StoryboardElementState, StoryboardElementType};

verus! {

/// Compares the simulation time with a value.
#[derive(Debug, Clone, PartialEq)]
pub struct SimulationTimeCondition {
    pub value: Double,
    pub rule: Value<Rule>,
}

/// Compares a parameter with a value.
#[derive(Debug, Clone, PartialEq)]
pub struct ParameterCondition {
    pub parameter_ref: OSString,
    pub rule: Value<Rule>,
    pub value: OSString,
}

/// Compares the time of day with a date and time.
#[derive(Debug, Clone, PartialEq)]
pub struct TimeOfDayCondition {
    pub date_time: DateTime,
    pub rule: Value<Rule>,
}

/// Holds when a storyboard element reaches a state.
#[derive(Debug, Clone, PartialEq)]
pub struct StoryboardElementStateCondition {
    pub storyboard_element_ref: OSString,
    pub state: Value<StoryboardElementState>,
    pub storyboard_element_type: Value<StoryboardElementType>,
}

/// Compares a value of the author's with a value.
#[derive(Debug, Clone, PartialEq)]
pub struct UserDefinedValueCondition {
    pub name: OSString,
    pub rule: Value<Rule>,
    pub value: OSString,
}

/// Holds when a traffic signal is in a state.
#[derive(Debug, Clone, PartialEq)]
pub struct TrafficSignalCondition {
    pub name: OSString,
    pub state: OSString,
}

/// Holds when a signal controller is in a phase.
#[derive(Debug, Clone, PartialEq)]
pub struct TrafficSignalControllerCondition {
    pub traffic_signal_controller_ref: OSString,
    pub phase: OSString,
}

/// Compares a variable with a value.
#[derive(Debug, Clone, PartialEq)]
pub struct VariableCondition {
    pub variable_ref: OSString,
    pub rule: Value<Rule>,
    pub value: OSString,
}

/// A condition on a value: exactly one of its branches is meant to be chosen.
#[derive(Debug, Clone, PartialEq)]
pub struct ByValueCondition {
    pub parameter_condition: Option<ParameterCondition>,
    pub time_of_day_condition: Option<TimeOfDayCondition>,
    pub simulation_time_condition: Option<SimulationTimeCondition>,
    pub storyboard_element_state_condition: Option<StoryboardElementStateCondition>,
    pub user_defined_value_condition: Option<UserDefinedValueCondition>,
    pub traffic_signal_condition: Option<TrafficSignalCondition>,
    pub traffic_signal_controller_condition: Option<TrafficSignalControllerCondition>,
    pub variable_condition: Option<VariableCondition>,
}

impl SimulationTimeCondition {
    /// Holds when the simulation time compares with `value` by `rule`.
    pub fn new(value: Real, rule: Rule) -> (r: SimulationTimeCondition)
        ensures
            r == (SimulationTimeCondition { value: Value::Literal(value), rule: Value::Literal(rule) }),
    {
        SimulationTimeCondition { value: Value::Literal(value), rule: Value::Literal(rule) }
    }
}

impl ParameterCondition {
    /// Holds when the parameter `parameter_ref` compares with `value` by `rule`.
    pub fn new(parameter_ref: &str, rule: Rule, value: &str) -> (r: ParameterCondition)
        ensures
            is_str_literal(r.parameter_ref, parameter_ref@),
            r.rule == Value::Literal(rule),
            is_str_literal(r.value, value@),
    {
        ParameterCondition {
            parameter_ref: Value::Literal(parameter_ref.to_owned()),
            rule: Value::Literal(rule),
            value: Value::Literal(value.to_owned()),
        }
    }
}

impl TimeOfDayCondition {
    /// Holds when the time of day compares with `date_time`, an ISO 8601 date and time,
    /// by `rule`.
    pub fn new(date_time: String, rule: Rule) -> (r: TimeOfDayCondition)
        ensures
            r == (TimeOfDayCondition { date_time: Value::Literal(date_time), rule: Value::Literal(rule) }),
    {
        TimeOfDayCondition { date_time: Value::Literal(date_time), rule: Value::Literal(rule) }
    }
}

impl StoryboardElementStateCondition {
    /// Holds when the element `storyboard_element_ref` of type `storyboard_element_type`
    /// reaches `state`.
    pub fn new(storyboard_element_ref: &str, state: StoryboardElementState, storyboard_element_type: StoryboardElementType) -> (r: StoryboardElementStateCondition)
        ensures
            is_str_literal(r.storyboard_element_ref, storyboard_element_ref@),
            r.state == Value::Literal(state),
            r.storyboard_element_type == Value::Literal(storyboard_element_type),
    {
        StoryboardElementStateCondition {
            storyboard_element_ref: Value::Literal(storyboard_element_ref.to_owned()),
            state: Value::Literal(state),
            storyboard_element_type: Value::Literal(storyboard_element_type),
        }
    }
}

impl UserDefinedValueCondition {
    /// Holds when the value `name` compares with `value` by `rule`.
    pub fn new(name: &str, rule: Rule, value: &str) -> (r: UserDefinedValueCondition)
        ensures
            is_str_literal(r.name, name@),
            r.rule == Value::Literal(rule),
            is_str_literal(r.value, value@),
    {
        UserDefinedValueCondition {
            name: Value::Literal(name.to_owned()),
            rule: Value::Literal(rule),
            value: Value::Literal(value.to_owned()),
        }
    }
}

impl TrafficSignalCondition {
    /// Holds when the signal `name` is in `state`.
    pub fn new(name: &str, state: &str) -> (r: TrafficSignalCondition)
        ensures
            is_str_literal(r.name, name@),
            is_str_literal(r.state, state@),
    {
        TrafficSignalCondition { name: Value::Literal(name.to_owned()), state: Value::Literal(state.to_owned()) }
    }
}

impl TrafficSignalControllerCondition {
    /// Holds when the controller `traffic_signal_controller_ref` is in `phase`.
    pub fn new(traffic_signal_controller_ref: &str, phase: &str) -> (r: TrafficSignalControllerCondition)
        ensures
            is_str_literal(r.traffic_signal_controller_ref, traffic_signal_controller_ref@),
            is_str_literal(r.phase, phase@),
    {
        TrafficSignalControllerCondition {
            traffic_signal_controller_ref: Value::Literal(traffic_signal_controller_ref.to_owned()),
            phase: Value::Literal(phase.to_owned()),
        }
    }
}

impl VariableCondition {
    /// Holds when the variable `variable_ref` compares with `value` by `rule`.
    pub fn new(variable_ref: &str, rule: Rule, value: &str) -> (r: VariableCondition)
        ensures
            is_str_literal(r.variable_ref, variable_ref@),
            r.rule == Value::Literal(rule),
            is_str_literal(r.value, value@),
    {
        VariableCondition {
            variable_ref: Value::Literal(variable_ref.to_owned()),
            rule: Value::Literal(rule),
            value: Value::Literal(value.to_owned()),
        }
    }
}

impl ByValueCondition {
    /// The condition with no branch chosen.
    pub open spec fn empty_spec() -> ByValueCondition {
        ByValueCondition {
            parameter_condition: None,
            time_of_day_condition: None,
            simulation_time_condition: None,
            storyboard_element_state_condition: None,
            user_defined_value_condition: None,
            traffic_signal_condition: None,
            traffic_signal_controller_condition: None,
            variable_condition: None,
        }
    }

    /// The condition with no branch chosen.
    fn empty() -> (r: ByValueCondition)
        ensures
            r == ByValueCondition::empty_spec(),
    {
        ByValueCondition {
            parameter_condition: None,
            time_of_day_condition: None,
            simulation_time_condition: None,
            storyboard_element_state_condition: None,
            user_defined_value_condition: None,
            traffic_signal_condition: None,
            traffic_signal_controller_condition: None,
            variable_condition: None,
        }
    }

    /// The condition `condition` on a parameter.
    pub fn parameter(condition: ParameterCondition) -> (r: ByValueCondition)
        ensures
            r == (ByValueCondition { parameter_condition: Some(condition), ..ByValueCondition::empty_spec() }),
    {
        ByValueCondition { parameter_condition: Some(condition), ..ByValueCondition::empty() }
    }

    /// The condition `condition` on the time of day.
    pub fn time_of_day(condition: TimeOfDayCondition) -> (r: ByValueCondition)
        ensures
            r == (ByValueCondition { time_of_day_condition: Some(condition), ..ByValueCondition::empty_spec() }),
    {
        ByValueCondition { time_of_day_condition: Some(condition), ..ByValueCondition::empty() }
    }

    /// The condition `condition` on the simulation time.
    pub fn simulation_time(condition: SimulationTimeCondition) -> (r: ByValueCondition)
        ensures
            r == (ByValueCondition { simulation_time_condition: Some(condition), ..ByValueCondition::empty_spec() }),
    {
        ByValueCondition { simulation_time_condition: Some(condition), ..ByValueCondition::empty() }
    }

    /// The condition `condition` on a storyboard element.
    pub fn storyboard_element_state(condition: StoryboardElementStateCondition) -> (r: ByValueCondition)
        ensures
            r == (ByValueCondition {
                storyboard_element_state_condition: Some(condition),
                ..ByValueCondition::empty_spec()
            }),
    {
        ByValueCondition { storyboard_element_state_condition: Some(condition), ..ByValueCondition::empty() }
    }

    /// The condition `condition` on a value of the author's.
    pub fn user_defined_value(condition: UserDefinedValueCondition) -> (r: ByValueCondition)
        ensures
            r == (ByValueCondition { user_defined_value_condition: Some(condition), ..ByValueCondition::empty_spec() }),
    {
        ByValueCondition { user_defined_value_condition: Some(condition), ..ByValueCondition::empty() }
    }

    /// The condition `condition` on a traffic signal.
    pub fn traffic_signal(condition: TrafficSignalCondition) -> (r: ByValueCondition)
        ensures
            r == (ByValueCondition { traffic_signal_condition: Some(condition), ..ByValueCondition::empty_spec() }),
    {
        ByValueCondition { traffic_signal_condition: Some(condition), ..ByValueCondition::empty() }
    }

    /// The condition `condition` on a signal controller.
    pub fn traffic_signal_controller(condition: TrafficSignalControllerCondition) -> (r: ByValueCondition)
        ensures
            r == (ByValueCondition {
                traffic_signal_controller_condition: Some(condition),
                ..ByValueCondition::empty_spec()
            }),
    {
        ByValueCondition { traffic_signal_controller_condition: Some(condition), ..ByValueCondition::empty() }
    }

    /// The condition `condition` on a variable.
    pub fn variable(condition: VariableCondition) -> (r: ByValueCondition)
        ensures
            r == (ByValueCondition { variable_condition: Some(condition), ..ByValueCondition::empty_spec() }),
    {
        ByValueCondition { variable_condition: Some(condition), ..ByValueCondition::empty() }
    }
}

} // verus!
