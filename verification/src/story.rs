//! Events of the storyboard.
use vstd::prelude::*;
use crate::actions::wrappers::NamedAction;
use crate::basic::{OSString, UnsignedInt};
use crate::enums::Priority;

verus! {

/// An event: actions that are started together.
#[derive(Debug, Clone, PartialEq)]
pub struct Event {
    pub name: OSString,
    pub priority: Option<Priority>,
    pub maximum_execution_count: Option<UnsignedInt>,
    pub actions: Vec<NamedAction>,
}

} // verus!
