use openscenario::basic::{Double, Real, Value};
use openscenario::conditions::{
    ByValueCondition, ParameterCondition, SimulationTimeCondition, StoryboardElementStateCondition,
};
use openscenario::enums::{Rule, StoryboardElementState, StoryboardElementType};

fn r(x: f64) -> Real {
    Real::new(&format!("{:?}", x))
}

fn lit(v: &Double) -> Option<f64> {
    v.as_literal().map(|x| x.as_str().parse::<f64>().unwrap())
}

#[test]
fn test_simulation_time_condition_new() {
    let cond = SimulationTimeCondition::new(r(10.0), Rule::GreaterThan);
    assert_eq!(lit(&cond.value).unwrap(), 10.0);
    assert_eq!(cond.rule, Value::Literal(Rule::GreaterThan));
}

#[test]
fn test_parameter_condition_new() {
    let cond = ParameterCondition::new("myParam", Rule::EqualTo, "myValue");
    assert_eq!(cond.parameter_ref.as_literal().unwrap(), "myParam");
    assert_eq!(cond.rule, Value::Literal(Rule::EqualTo));
    assert_eq!(cond.value.as_literal().unwrap(), "myValue");
}

#[test]
fn test_by_value_condition_simulation_time_branch() {
    let cond = ByValueCondition::simulation_time(SimulationTimeCondition::new(
        r(10.0),
        Rule::GreaterThan,
    ));
    assert!(cond.simulation_time_condition.is_some());
    assert!(cond.parameter_condition.is_none());
    assert!(cond.variable_condition.is_none());
}

#[test]
fn test_storyboard_element_state_condition_new() {
    let cond = StoryboardElementStateCondition::new(
        "myElement",
        StoryboardElementState::RunningState,
        StoryboardElementType::Story,
    );
    assert_eq!(
        cond.state,
        Value::Literal(StoryboardElementState::RunningState)
    );
    assert_eq!(
        cond.storyboard_element_type,
        Value::Literal(StoryboardElementType::Story)
    );
}
