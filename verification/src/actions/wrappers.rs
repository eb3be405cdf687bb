//! The kinds of actions, as the schema groups them, and the actions on entities,
//! traffic, monitors, variables and parameters.
use vstd::prelude::*;
use crate::actions::appearance::{AppearanceAction, VisibilityAction};
use crate::actions::control::{ActivateControllerAction, ControllerAction};
use crate::actions::movement::TeleportAction;
use crate::actions::traffic::{
    TrafficAreaAction, TrafficSignalAction, TrafficSinkAction, TrafficSourceAction, TrafficStopAction,
    TrafficSwarmAction,
};
use crate::basic::{is_str_literal, Boolean, Double, OSString, Real, Value};
use crate::catalogs::environments::CatalogEnvironment;
use crate::environment::Environment;
use crate::positions::Position;
use crate::references::CatalogReference;

verus! {

/// An action: global, of the author's, or on one entity.
#[derive(Debug, Clone, PartialEq)]
pub enum Action {
    GlobalAction(GlobalAction),
    UserDefinedAction(UserDefinedAction),
    PrivateAction(PrivateAction),
}

/// An action on the scenario as a whole.
#[derive(Debug, Clone, PartialEq)]
pub enum GlobalAction {
    EnvironmentAction(EnvironmentAction),
    EntityAction(EntityAction),
    InfrastructureAction(InfrastructureAction),
    SetMonitorAction(SetMonitorAction),
    ParameterAction(ParameterAction),
    TrafficAction(TrafficAction),
    VariableAction(VariableAction),
}

/// An action on one entity.
#[derive(Debug, Clone, PartialEq)]
pub enum PrivateAction {
    VisibilityAction(VisibilityAction),
    ActivateControllerAction(ActivateControllerAction),
    ControllerAction(ControllerAction),
    TeleportAction(TeleportAction),
    AppearanceAction(AppearanceAction),
}

/// Adds an entity to or deletes it from the scenario.
#[derive(Debug, Clone, PartialEq)]
pub struct EntityAction {
    pub entity_ref: OSString,
    pub action: EntityActionChoice,
}

/// Adding or deleting an entity.
#[derive(Debug, Clone, PartialEq)]
pub enum EntityActionChoice {
    AddEntityAction(AddEntityAction),
    DeleteEntityAction(DeleteEntityAction),
}

/// An action on traffic, optionally named.
#[derive(Debug, Clone, PartialEq)]
pub struct TrafficAction {
    pub traffic_name: Option<OSString>,
    pub action: TrafficActionChoice,
}

/// The kinds of traffic actions.
#[derive(Debug, Clone, PartialEq)]
pub enum TrafficActionChoice {
    TrafficSourceAction(TrafficSourceAction),
    TrafficSinkAction(TrafficSinkAction),
    TrafficSwarmAction(TrafficSwarmAction),
    TrafficAreaAction(TrafficAreaAction),
    TrafficStopAction(TrafficStopAction),
}

/// An action on the road infrastructure: traffic signals.
#[derive(Debug, Clone, PartialEq)]
pub struct InfrastructureAction {
    pub traffic_signal_action: TrafficSignalAction,
}

/// Adds an entity at a position.
#[derive(Debug, Clone, PartialEq)]
pub struct AddEntityAction {
    pub position: Position,
}

/// Deletes an entity.
#[derive(Debug, Clone, PartialEq)]
pub struct DeleteEntityAction {}

/// An action of the author's: a command.
#[derive(Debug, Clone, PartialEq)]
pub struct UserDefinedAction {
    pub custom_command_action: CustomCommandAction,
}

/// A command of the author's, with its type and content.
#[derive(Debug, Clone, PartialEq)]
pub struct CustomCommandAction {
    pub command_type: OSString,
    pub content: String,
}

/// Sets the environment, given in place or by reference.
#[derive(Debug, Clone, PartialEq)]
pub struct EnvironmentAction {
    pub environment: Option<Environment>,
    pub catalog_reference: Option<CatalogReference>,
}

/// Sets the value of a monitor.
#[derive(Debug, Clone, PartialEq)]
pub struct SetMonitorAction {
    pub monitor_ref: OSString,
    pub value: Boolean,
}

/// Sets or changes a variable.
#[derive(Debug, Clone, PartialEq)]
pub struct VariableAction {
    pub variable_ref: OSString,
    pub action: VariableActionChoice,
}

/// Setting or changing a variable.
#[derive(Debug, Clone, PartialEq)]
pub enum VariableActionChoice {
    VariableSetAction(VariableSetAction),
    VariableModifyAction(VariableModifyAction),
}

/// Sets a variable to a value.
#[derive(Debug, Clone, PartialEq)]
pub struct VariableSetAction {
    pub value: OSString,
}

/// Changes a variable by a rule.
#[derive(Debug, Clone, PartialEq)]
pub struct VariableModifyAction {
    pub rule: VariableModifyRule,
}

/// The rule by which a variable changes.
#[derive(Debug, Clone, PartialEq)]
pub struct VariableModifyRule {
    pub rule: VariableModifyRuleChoice,
}

/// Adding to or multiplying a variable.
#[derive(Debug, Clone, PartialEq)]
pub enum VariableModifyRuleChoice {
    VariableAddValueRule(VariableAddValueRule),
    VariableMultiplyByValueRule(VariableMultiplyByValueRule),
}

/// Adds a value to a variable.
#[derive(Debug, Clone, PartialEq)]
pub struct VariableAddValueRule {
    pub value: Double,
}

/// Multiplies a variable by a value.
#[derive(Debug, Clone, PartialEq)]
pub struct VariableMultiplyByValueRule {
    pub value: Double,
}

/// Sets or changes a parameter.
#[derive(Debug, Clone, PartialEq)]
pub struct ParameterAction {
    pub parameter_ref: OSString,
    pub action: ParameterActionChoice,
}

/// Setting or changing a parameter.
#[derive(Debug, Clone, PartialEq)]
pub enum ParameterActionChoice {
    ParameterSetAction(ParameterSetAction),
    ParameterModifyAction(ParameterModifyAction),
}

/// Sets a parameter to a value.
#[derive(Debug, Clone, PartialEq)]
pub struct ParameterSetAction {
    pub value: OSString,
}

/// Changes a parameter by a rule.
#[derive(Debug, Clone, PartialEq)]
pub struct ParameterModifyAction {
    pub rule: ModifyRule,
}

/// The rule by which a parameter changes.
#[derive(Debug, Clone, PartialEq)]
pub struct ModifyRule {
    pub rule: ModifyRuleChoice,
}

/// Adding to or multiplying a parameter.
#[derive(Debug, Clone, PartialEq)]
pub enum ModifyRuleChoice {
    ParameterAddValueRule(ParameterAddValueRule),
    ParameterMultiplyByValueRule(ParameterMultiplyByValueRule),
}

/// Adds a value to a parameter.
#[derive(Debug, Clone, PartialEq)]
pub struct ParameterAddValueRule {
    pub value: Double,
}

/// Multiplies a parameter by a value.
#[derive(Debug, Clone, PartialEq)]
pub struct ParameterMultiplyByValueRule {
    pub value: Double,
}

/// An action with its name.
#[derive(Debug, Clone, PartialEq)]
pub struct NamedAction {
    pub name: OSString,
    pub action: Action,
}

/// Assigns a random route.
#[derive(Debug, Clone, PartialEq)]
pub struct RandomRouteAction {}

impl InfrastructureAction {
    /// The action `traffic_signal_action` on traffic signals.
    pub fn new(traffic_signal_action: TrafficSignalAction) -> (r: InfrastructureAction)
        ensures
            r == (InfrastructureAction { traffic_signal_action }),
    {
        InfrastructureAction { traffic_signal_action }
    }
}

impl Default for AddEntityAction {
    /// Adds an entity at a position with no branch chosen.
    fn default() -> (r: AddEntityAction)
        ensures
            Position::is_empty(r.position),
    {
        AddEntityAction { position: Position::empty() }
    }
}

impl Default for DeleteEntityAction {
    /// Deletes an entity.
    fn default() -> (r: DeleteEntityAction)
        ensures
            r == (DeleteEntityAction {}),
    {
        DeleteEntityAction {}
    }
}

impl Default for RandomRouteAction {
    /// Assigns a random route.
    fn default() -> (r: RandomRouteAction)
        ensures
            r == (RandomRouteAction {}),
    {
        RandomRouteAction {}
    }
}

impl Default for EnvironmentAction {
    /// Neither an environment nor a reference.
    fn default() -> (r: EnvironmentAction)
        ensures
            r.environment is None,
            r.catalog_reference is None,
    {
        EnvironmentAction { environment: None, catalog_reference: None }
    }
}

impl UserDefinedAction {
    /// The action that runs `custom_command_action`.
    pub fn new(custom_command_action: CustomCommandAction) -> (r: UserDefinedAction)
        ensures
            r == (UserDefinedAction { custom_command_action }),
    {
        UserDefinedAction { custom_command_action }
    }
}

impl CustomCommandAction {
    /// The command of type `command_type` with content `content`.
    pub fn new(command_type: &str, content: &str) -> (r: CustomCommandAction)
        ensures
            is_str_literal(r.command_type, command_type@),
            r.content@ == content@,
    {
        CustomCommandAction { command_type: Value::Literal(command_type.to_owned()), content: content.to_owned() }
    }
}

impl EntityAction {
    /// Adds the entity `entity_ref` at `position`.
    pub fn add(entity_ref: &str, position: Position) -> (r: EntityAction)
        ensures
            is_str_literal(r.entity_ref, entity_ref@),
            r.action == EntityActionChoice::AddEntityAction(AddEntityAction { position }),
    {
        EntityAction {
            entity_ref: Value::Literal(entity_ref.to_owned()),
            action: EntityActionChoice::AddEntityAction(AddEntityAction { position }),
        }
    }

    /// Deletes the entity `entity_ref`.
    pub fn delete(entity_ref: &str) -> (r: EntityAction)
        ensures
            is_str_literal(r.entity_ref, entity_ref@),
            r.action == EntityActionChoice::DeleteEntityAction(DeleteEntityAction {}),
    {
        EntityAction {
            entity_ref: Value::Literal(entity_ref.to_owned()),
            action: EntityActionChoice::DeleteEntityAction(DeleteEntityAction::default()),
        }
    }
}

impl TrafficAction {
    /// The unnamed traffic action `action`.
    pub fn new(action: TrafficActionChoice) -> (r: TrafficAction)
        ensures
            r == (TrafficAction { traffic_name: None, action }),
    {
        TrafficAction { traffic_name: None, action }
    }

    /// This action named `traffic_name`.
    pub fn with_name(self, traffic_name: &str) -> (r: TrafficAction)
        ensures
            r.traffic_name matches Some(n) && is_str_literal(n, traffic_name@),
            r.action == self.action,
    {
        let mut s = self;
        s.traffic_name = Some(Value::Literal(traffic_name.to_owned()));
        s
    }
}

impl SetMonitorAction {
    /// Sets the monitor `monitor_ref` to `value`.
    pub fn new(monitor_ref: &str, value: bool) -> (r: SetMonitorAction)
        ensures
            is_str_literal(r.monitor_ref, monitor_ref@),
            r.value == Value::<bool>::Literal(value),
    {
        SetMonitorAction { monitor_ref: Value::Literal(monitor_ref.to_owned()), value: Value::Literal(value) }
    }
}

impl VariableAction {
    /// The action `action` on the variable `variable_ref`.
    pub fn new(variable_ref: &str, action: VariableActionChoice) -> (r: VariableAction)
        ensures
            is_str_literal(r.variable_ref, variable_ref@),
            r.action == action,
    {
        VariableAction { variable_ref: Value::Literal(variable_ref.to_owned()), action }
    }
}

impl VariableSetAction {
    /// Sets a variable to `value`.
    pub fn new(value: &str) -> (r: VariableSetAction)
        ensures
            is_str_literal(r.value, value@),
    {
        VariableSetAction { value: Value::Literal(value.to_owned()) }
    }
}

impl VariableModifyRule {
    /// Adds `value` to a variable.
    pub fn add_value(value: Real) -> (r: VariableModifyRule)
        ensures
            r == (VariableModifyRule {
                rule: VariableModifyRuleChoice::VariableAddValueRule(VariableAddValueRule { value: Value::Literal(value) }),
            }),
    {
        VariableModifyRule { rule: VariableModifyRuleChoice::VariableAddValueRule(VariableAddValueRule::new(value)) }
    }

    /// Multiplies a variable by `value`.
    pub fn multiply_by_value(value: Real) -> (r: VariableModifyRule)
        ensures
            r == (VariableModifyRule {
                rule: VariableModifyRuleChoice::VariableMultiplyByValueRule(
                    VariableMultiplyByValueRule { value: Value::Literal(value) },
                ),
            }),
    {
        VariableModifyRule {
            rule: VariableModifyRuleChoice::VariableMultiplyByValueRule(VariableMultiplyByValueRule::new(value)),
        }
    }
}

impl VariableModifyAction {
    /// Changes a variable by `rule`.
    pub fn new(rule: VariableModifyRule) -> (r: VariableModifyAction)
        ensures
            r == (VariableModifyAction { rule }),
    {
        VariableModifyAction { rule }
    }
}

impl VariableAddValueRule {
    /// Adds `value`.
    pub fn new(value: Real) -> (r: VariableAddValueRule)
        ensures
            r == (VariableAddValueRule { value: Value::Literal(value) }),
    {
        VariableAddValueRule { value: Value::Literal(value) }
    }
}

impl VariableMultiplyByValueRule {
    /// Multiplies by `value`.
    pub fn new(value: Real) -> (r: VariableMultiplyByValueRule)
        ensures
            r == (VariableMultiplyByValueRule { value: Value::Literal(value) }),
    {
        VariableMultiplyByValueRule { value: Value::Literal(value) }
    }
}

impl ParameterAction {
    /// The action `action` on the parameter `parameter_ref`.
    pub fn new(parameter_ref: &str, action: ParameterActionChoice) -> (r: ParameterAction)
        ensures
            is_str_literal(r.parameter_ref, parameter_ref@),
            r.action == action,
    {
        ParameterAction { parameter_ref: Value::Literal(parameter_ref.to_owned()), action }
    }
}

impl ParameterSetAction {
    /// Sets a parameter to `value`.
    pub fn new(value: &str) -> (r: ParameterSetAction)
        ensures
            is_str_literal(r.value, value@),
    {
        ParameterSetAction { value: Value::Literal(value.to_owned()) }
    }
}

impl ModifyRule {
    /// Adds `value` to a parameter.
    pub fn add_value(value: Real) -> (r: ModifyRule)
        ensures
            r == (ModifyRule {
                rule: ModifyRuleChoice::ParameterAddValueRule(ParameterAddValueRule { value: Value::Literal(value) }),
            }),
    {
        ModifyRule { rule: ModifyRuleChoice::ParameterAddValueRule(ParameterAddValueRule::new(value)) }
    }

    /// Multiplies a parameter by `value`.
    pub fn multiply_by_value(value: Real) -> (r: ModifyRule)
        ensures
            r == (ModifyRule {
                rule: ModifyRuleChoice::ParameterMultiplyByValueRule(
                    ParameterMultiplyByValueRule { value: Value::Literal(value) },
                ),
            }),
    {
        ModifyRule { rule: ModifyRuleChoice::ParameterMultiplyByValueRule(ParameterMultiplyByValueRule::new(value)) }
    }
}

impl ParameterModifyAction {
    /// Changes a parameter by `rule`.
    pub fn new(rule: ModifyRule) -> (r: ParameterModifyAction)
        ensures
            r == (ParameterModifyAction { rule }),
    {
        ParameterModifyAction { rule }
    }
}

impl ParameterAddValueRule {
    /// Adds `value`.
    pub fn new(value: Real) -> (r: ParameterAddValueRule)
        ensures
            r == (ParameterAddValueRule { value: Value::Literal(value) }),
    {
        ParameterAddValueRule { value: Value::Literal(value) }
    }
}

impl ParameterMultiplyByValueRule {
    /// Multiplies by `value`.
    pub fn new(value: Real) -> (r: ParameterMultiplyByValueRule)
        ensures
            r == (ParameterMultiplyByValueRule { value: Value::Literal(value) }),
    {
        ParameterMultiplyByValueRule { value: Value::Literal(value) }
    }
}

} // verus!
