//! Monitors: named flags that a scenario sets while it runs.
use vstd::prelude::*;
use crate::basic::{is_str_literal, Boolean, OSString, Value};

verus! {

/// The monitors that a scenario declares.
#[derive(Debug, Clone, PartialEq)]
pub struct MonitorDeclarations {
    pub monitor_declarations: Vec<MonitorDeclaration>,
}

/// A monitor and its initial value.
#[derive(Debug, Clone, PartialEq)]
pub struct MonitorDeclaration {
    pub name: OSString,
    pub value: Boolean,
}

impl Default for MonitorDeclarations {
    /// No monitors.
    fn default() -> (r: MonitorDeclarations)
        ensures
            r.monitor_declarations@.len() == 0,
    {
        MonitorDeclarations { monitor_declarations: Vec::new() }
    }
}

impl Default for MonitorDeclaration {
    /// The monitor `DefaultMonitor`, initially false.
    fn default() -> (r: MonitorDeclaration)
        ensures
            is_str_literal(r.name, "DefaultMonitor"@),
            r.value == Value::<bool>::Literal(false),
    {
        MonitorDeclaration { name: Value::Literal("DefaultMonitor".to_owned()), value: Value::Literal(false) }
    }
}

impl MonitorDeclarations {
    /// No monitors.
    pub fn new() -> (r: MonitorDeclarations)
        ensures
            r.monitor_declarations@.len() == 0,
    {
        MonitorDeclarations::default()
    }

    /// The monitor `name` alone, initially `value`.
    pub fn with_monitor(name: String, value: bool) -> (r: MonitorDeclarations)
        ensures
            r.monitor_declarations@ == seq![MonitorDeclaration { name: Value::Literal(name), value: Value::Literal(value) }],
    {
        let mut monitor_declarations: Vec<MonitorDeclaration> = Vec::new();
        monitor_declarations.push(MonitorDeclaration { name: Value::Literal(name), value: Value::Literal(value) });
        MonitorDeclarations { monitor_declarations }
    }

    /// Declares the monitor `name`, initially `value`.
    pub fn add_monitor(&mut self, name: String, value: bool)
        ensures
            final(self).monitor_declarations@ == old(self).monitor_declarations@.push(
                MonitorDeclaration { name: Value::Literal(name), value: Value::Literal(value) },
            ),
    {
        self.monitor_declarations.push(MonitorDeclaration { name: Value::Literal(name), value: Value::Literal(value) });
    }

    /// Whether no monitor is declared.
    pub fn is_empty(&self) -> (r: bool)
        ensures
            r == (self.monitor_declarations@.len() == 0),
    {
        self.monitor_declarations.len() == 0
    }

    /// The number of monitors declared.
    pub fn len(&self) -> (n: usize)
        ensures
            n == self.monitor_declarations@.len(),
    {
        self.monitor_declarations.len()
    }
}

impl MonitorDeclaration {
    /// The monitor `name`, initially `value`.
    pub fn new(name: String, value: bool) -> (r: MonitorDeclaration)
        ensures
            r == (MonitorDeclaration { name: Value::Literal(name), value: Value::Literal(value) }),
    {
        MonitorDeclaration { name: Value::Literal(name), value: Value::Literal(value) }
    }
}

} // verus!
