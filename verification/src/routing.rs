//! Routes that entities follow, and the references that name them.
use vstd::prelude::*;
use crate::basic::{Boolean, OSString, ValueConstraintGroup};
use crate::catalogs::routes::CatalogRoute;
use crate::enums::{ParameterType, RouteStrategy};
use crate::positions::Position;
use crate::references::CatalogReference;

verus! {

/// A route: a sequence of waypoints, each reached by a routing strategy.
#[derive(Debug, Clone, PartialEq)]
pub struct Route {
    pub name: OSString,
    pub closed: Boolean,
    pub parameter_declarations: Option<ParameterDeclarations>,
    pub waypoints: Vec<Waypoint>,
}

/// A point of a route and the strategy by which it is reached.
#[derive(Debug, Clone, PartialEq)]
pub struct Waypoint {
    pub position: Position,
    pub route_strategy: RouteStrategy,
}

/// A route given in place or by a reference to a route catalog.
#[derive(Debug, Clone, PartialEq)]
pub enum RouteRef {
    Direct(Route),
    Catalog(CatalogReference),
}

/// The parameters that a route declares.
#[derive(Debug, Clone, PartialEq)]
pub struct ParameterDeclarations {
    pub parameter_declarations: Vec<ParameterDeclaration>,
}

/// A parameter that a route declares, with its type, default value and constraints.
#[derive(Debug, Clone, PartialEq)]
pub struct ParameterDeclaration {
    pub name: OSString,
    pub parameter_type: ParameterType,
    pub value: OSString,
    pub constraint_groups: Vec<ValueConstraintGroup>,
}

impl RouteRef {
    /// The route `route`, given in place.
    pub fn direct(route: Route) -> (r: RouteRef)
        ensures
            r == RouteRef::Direct(route),
    {
        RouteRef::Direct(route)
    }

    /// The route that `reference` names in a route catalog.
    pub fn catalog(reference: CatalogReference) -> (r: RouteRef)
        ensures
            r == RouteRef::Catalog(reference),
    {
        RouteRef::Catalog(reference)
    }
}

} // verus!
