use openscenario::actions::traffic::TrafficStopAction;
use openscenario::actions::wrappers::{
    Action, EntityAction, EntityActionChoice, GlobalAction, PrivateAction, RandomRouteAction,
    SetMonitorAction, TrafficAction, TrafficActionChoice, VariableAction, VariableActionChoice,
    VariableMultiplyByValueRule, VariableSetAction,
};
use openscenario::basic::{Double, Real};
use openscenario::positions::Position;

fn r(x: f64) -> Real {
    Real::new(&format!("{:?}", x))
}

fn lit(v: &Double) -> Option<f64> {
    v.as_literal().map(|x| x.as_str().parse::<f64>().unwrap())
}

#[test]
fn test_action_variant_construction() {
    let action = Action::PrivateAction(PrivateAction::TeleportAction(Default::default()));
    assert!(matches!(
        action,
        Action::PrivateAction(PrivateAction::TeleportAction(_))
    ));
}

#[test]
fn test_entity_action_delete_constructor() {
    let ea = EntityAction::delete("defaultEntity");
    assert_eq!(ea.entity_ref.as_literal().unwrap(), "defaultEntity");
    assert!(matches!(
        ea.action,
        EntityActionChoice::DeleteEntityAction(_)
    ));
}

#[test]
fn test_entity_action_add_constructor() {
    let ea = EntityAction::add("newEntity", Position::default());
    assert_eq!(ea.entity_ref.as_literal().unwrap(), "newEntity");
    assert!(matches!(ea.action, EntityActionChoice::AddEntityAction(_)));
}

#[test]
fn test_global_action_traffic_variant_construction() {
    let action = GlobalAction::TrafficAction(TrafficAction::new(
        TrafficActionChoice::TrafficStopAction(TrafficStopAction::default()),
    ));
    assert!(matches!(action, GlobalAction::TrafficAction(_)));
}

#[test]
fn test_variable_action_new_constructor() {
    let va = VariableAction::new(
        "defaultVariable",
        VariableActionChoice::VariableSetAction(VariableSetAction::new("0")),
    );
    assert_eq!(va.variable_ref.as_literal().unwrap(), "defaultVariable");
    assert!(matches!(
        va.action,
        VariableActionChoice::VariableSetAction(_)
    ));
}

#[test]
fn test_variable_multiply_new_value() {
    let rule = VariableMultiplyByValueRule::new(r(1.0));
    assert_eq!(lit(&rule.value).unwrap(), 1.0);
}

#[test]
fn test_set_monitor_action_new_constructor() {
    let sma = SetMonitorAction::new("defaultMonitor", true);
    assert_eq!(sma.value.as_literal().unwrap(), &true);
    assert_eq!(
        sma.monitor_ref.as_literal().unwrap(),
        &"defaultMonitor".to_string()
    );
}

#[test]
fn test_random_route_action_default() {
    let _rra = RandomRouteAction::default();
}
