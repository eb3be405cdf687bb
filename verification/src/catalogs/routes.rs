//! Routes as catalogs hold them, and their resolution into scenario routes.
use vstd::prelude::*;
use crate::basic::{
    is_real_literal, literal_of, name_resolution, resolve_parameter, resolved_name, Boolean,
    OSString, ParameterDeclarations, Real, Value,
};
use crate::catalogs::entities::{CatalogEntity, ParameterDefinition};
use crate::enums::RouteStrategy;
use crate::error::Error;
use crate::params::ParameterMap;
use crate::positions::world::WorldPosition;
use crate::positions::Position;
use crate::routing;

verus! {

/// A route of a catalog.
#[derive(Debug, Clone, PartialEq)]
pub struct CatalogRoute {
    pub name: String,
    pub closed: Boolean,
    pub parameter_declarations: Option<ParameterDeclarations>,
    pub waypoints: Vec<RouteWaypoint>,
}

/// A waypoint of a catalog route.
#[derive(Debug, Clone, PartialEq)]
pub struct RouteWaypoint {
    pub position: Position,
    pub route_strategy: RouteStrategy,
}

/// The values assigned to the parameters of a referenced route.
#[derive(Debug, Clone, PartialEq)]
pub struct RouteParameterAssignments {
    pub assignments: Vec<RouteParameterAssignment>,
}

/// A value assigned to one parameter of a referenced route.
#[derive(Debug, Clone, PartialEq)]
pub struct RouteParameterAssignment {
    pub parameter_ref: OSString,
    pub value: OSString,
}

impl Default for CatalogRoute {
    /// An open route named `DefaultCatalogRoute` with no parameters and no waypoints.
    fn default() -> (r: CatalogRoute)
        ensures
            r.name@ == "DefaultCatalogRoute"@,
            r.closed == Value::<bool>::Literal(false),
            r.parameter_declarations is None,
            r.waypoints@.len() == 0,
    {
        CatalogRoute {
            name: "DefaultCatalogRoute".to_owned(),
            closed: Value::Literal(false),
            parameter_declarations: None,
            waypoints: Vec::new(),
        }
    }
}

impl Default for RouteWaypoint {
    /// The world origin `0.0`, `0.0`, `0.0`, reached by the fastest route.
    fn default() -> (r: RouteWaypoint)
        ensures
            r.position.world_position matches Some(w) && is_real_literal(w.x, "0.0"@)
                && is_real_literal(w.y, "0.0"@) && (w.z matches Some(z) && is_real_literal(z, "0.0"@))
                && w.h is None && w.p is None && w.r is None,
            r.position.relative_world_position is None,
            r.position.road_position is None,
            r.position.relative_road_position is None,
            r.position.lane_position is None,
            r.position.relative_lane_position is None,
            r.position.route_position is None,
            r.position.trajectory_position is None,
            r.position.geographic_position is None,
            r.position.relative_object_position is None,
            r.route_strategy == RouteStrategy::Fastest,
    {
        RouteWaypoint {
            position: Position::world(
                WorldPosition::with_z(Real::new("0.0"), Real::new("0.0"), Real::new("0.0")),
            ),
            route_strategy: RouteStrategy::Fastest,
        }
    }
}

impl CatalogRoute {
    /// An open route named `name` with no parameters and no waypoints.
    pub fn new(name: String) -> (r: CatalogRoute)
        ensures
            r.name == name,
            r.closed == Value::<bool>::Literal(false),
            r.parameter_declarations is None,
            r.waypoints@.len() == 0,
    {
        CatalogRoute {
            name,
            closed: Value::Literal(false),
            parameter_declarations: None,
            waypoints: Vec::new(),
        }
    }

    /// An open route named `name` that declares `parameters`, with no waypoints.
    pub fn with_parameters(name: String, parameters: ParameterDeclarations) -> (r: CatalogRoute)
        ensures
            r.name == name,
            r.closed == Value::<bool>::Literal(false),
            r.parameter_declarations == Some(parameters),
            r.waypoints@.len() == 0,
    {
        CatalogRoute {
            name,
            closed: Value::Literal(false),
            parameter_declarations: Some(parameters),
            waypoints: Vec::new(),
        }
    }

    /// A route named `name`, closed or not, with no parameters and no waypoints.
    pub fn with_closed(name: String, closed: bool) -> (r: CatalogRoute)
        ensures
            r.name == name,
            r.closed == Value::<bool>::Literal(closed),
            r.parameter_declarations is None,
            r.waypoints@.len() == 0,
    {
        CatalogRoute {
            name,
            closed: Value::Literal(closed),
            parameter_declarations: None,
            waypoints: Vec::new(),
        }
    }

    /// Appends `waypoint` to the route.
    pub fn add_waypoint(&mut self, waypoint: RouteWaypoint)
        ensures
            final(self).waypoints@ == old(self).waypoints@.push(waypoint),
            final(self).name == old(self).name,
            final(self).closed == old(self).closed,
            final(self).parameter_declarations == old(self).parameter_declarations,
    {
        self.waypoints.push(waypoint);
    }

    /// Appends the waypoint `position`, reached by `route_strategy`, to the route.
    pub fn add_position_waypoint(&mut self, position: Position, route_strategy: RouteStrategy)
        ensures
            final(self).waypoints@ == old(self).waypoints@.push(RouteWaypoint { position, route_strategy }),
            final(self).name == old(self).name,
            final(self).closed == old(self).closed,
            final(self).parameter_declarations == old(self).parameter_declarations,
    {
        self.waypoints.push(RouteWaypoint { position, route_strategy });
    }

    /// The number of waypoints.
    pub fn waypoint_count(&self) -> (n: usize)
        ensures
            n == self.waypoints@.len(),
    {
        self.waypoints.len()
    }
}

impl RouteWaypoint {
    /// The waypoint `position`, reached by `route_strategy`.
    pub fn new(position: Position, route_strategy: RouteStrategy) -> (r: RouteWaypoint)
        ensures
            r == (RouteWaypoint { position, route_strategy }),
    {
        RouteWaypoint { position, route_strategy }
    }

    /// The waypoint `position`, reached by `strategy`.
    pub fn with_strategy(position: Position, strategy: RouteStrategy) -> (r: RouteWaypoint)
        ensures
            r == (RouteWaypoint { position, route_strategy: strategy }),
    {
        RouteWaypoint { position, route_strategy: strategy }
    }
}

impl RouteParameterAssignments {
    /// One assignment for each pair of parameter and value, in order.
    pub fn from_pairs(pairs: Vec<(OSString, OSString)>) -> (r: RouteParameterAssignments)
        ensures
            r.assignments@.len() == pairs@.len(),
            forall|i: int| 0 <= i < pairs@.len() ==> #[trigger] r.assignments@[i] == (
                RouteParameterAssignment { parameter_ref: pairs@[i].0, value: pairs@[i].1 }),
    {
        let mut assignments: Vec<RouteParameterAssignment> = Vec::new();
        for pair in it: pairs.into_iter()
            invariant
                assignments@.len() == it.index(),
                it.seq() == pairs@,
                forall|i: int| 0 <= i < it.index() ==> #[trigger] assignments@[i] == (
                    RouteParameterAssignment { parameter_ref: pairs@[i].0, value: pairs@[i].1 }),
        {
            let (parameter_ref, value) = pair;
            assignments.push(RouteParameterAssignment { parameter_ref, value });
        }
        RouteParameterAssignments { assignments }
    }

    /// Appends the assignment of `value` to `parameter_ref`.
    pub fn add_assignment(&mut self, parameter_ref: OSString, value: OSString)
        ensures
            final(self).assignments@ == old(self).assignments@.push(
                RouteParameterAssignment { parameter_ref, value },
            ),
    {
        self.assignments.push(RouteParameterAssignment { parameter_ref, value });
    }
}

impl RouteParameterAssignment {
    /// The assignment of `value` to `parameter_ref`.
    pub fn new(parameter_ref: OSString, value: OSString) -> (r: RouteParameterAssignment)
        ensures
            r == (RouteParameterAssignment { parameter_ref, value }),
    {
        RouteParameterAssignment { parameter_ref, value }
    }
}

/// Whether `out` declares exactly the parameters of `decls`, in order, each with the
/// same name, type, default value and constraints.
pub open spec fn carries_declarations(decls: ParameterDeclarations, out: routing::ParameterDeclarations) -> bool {
    &&& out.parameter_declarations@.len() == decls.parameter_declarations@.len()
    &&& forall|i: int| 0 <= i < decls.parameter_declarations@.len() ==> {
        let d = #[trigger] decls.parameter_declarations@[i];
        let o = out.parameter_declarations@[i];
        &&& o.name == d.name
        &&& o.parameter_type == d.parameter_type
        &&& o.value == d.value
        &&& o.constraint_groups == d.constraint_groups
    }
}

/// The declarations `declarations`, as a scenario route declares them.
pub fn route_parameter_declarations(declarations: ParameterDeclarations) -> (r: Result<routing::ParameterDeclarations, Error>)
    ensures
        r matches Ok(out) && carries_declarations(declarations, out),
{
    let ghost decls = declarations;
    let mut parameter_declarations: Vec<routing::ParameterDeclaration> = Vec::new();
    for decl in it: declarations.parameter_declarations.into_iter()
        invariant
            it.seq() == decls.parameter_declarations@,
            parameter_declarations@.len() == it.index(),
            forall|i: int| 0 <= i < it.index() ==> {
                let d = #[trigger] decls.parameter_declarations@[i];
                let o = parameter_declarations@[i];
                &&& o.name == d.name
                &&& o.parameter_type == d.parameter_type
                &&& o.value == d.value
                &&& o.constraint_groups == d.constraint_groups
            },
    {
        parameter_declarations.push(routing::ParameterDeclaration {
            name: decl.name,
            parameter_type: decl.parameter_type,
            value: decl.value,
            constraint_groups: decl.constraint_groups,
        });
    }
    Ok(routing::ParameterDeclarations { parameter_declarations })
}

impl CatalogEntity for CatalogRoute {
    type ResolvedType = routing::Route;

    /// The scenario route that this entry stands for under `parameters`: its name and
    /// `closed` resolved, its declarations and waypoints carried over.
    fn into_scenario_entity(self, parameters: ParameterMap) -> (r: Result<routing::Route, Error>)
        ensures
            match r {
                Ok(route) => {
                    &&& route.name matches Value::Literal(n) && resolved_name(self.name@, parameters) == Some(n@)
                    &&& self.closed.resolvable(parameters)
                    &&& literal_of(route.closed, self.closed, parameters)
                    &&& match self.parameter_declarations {
                        Some(d) => route.parameter_declarations matches Some(o) && carries_declarations(d, o),
                        None => route.parameter_declarations is None,
                    }
                    &&& route.waypoints@.len() == self.waypoints@.len()
                    &&& forall|i: int| 0 <= i < self.waypoints@.len() ==> #[trigger] route.waypoints@[i] == (
                        routing::Waypoint {
                            position: self.waypoints@[i].position,
                            route_strategy: self.waypoints@[i].route_strategy,
                        })
                },
                Err(e) => {
                    ||| name_resolution(self.name@, parameters, Err(e))
                    ||| resolved_name(self.name@, parameters) is Some && !self.closed.resolvable(parameters)
                        && self.closed.resolves_to(parameters, Err(e))
                },
            },
    {
        let ghost given = self;
        let mut waypoints: Vec<routing::Waypoint> = Vec::new();
        for w in it: self.waypoints.into_iter()
            invariant
                it.seq() == given.waypoints@,
                waypoints@.len() == it.index(),
                forall|i: int| 0 <= i < it.index() ==> #[trigger] waypoints@[i] == (routing::Waypoint {
                    position: given.waypoints@[i].position,
                    route_strategy: given.waypoints@[i].route_strategy,
                }),
        {
            waypoints.push(routing::Waypoint { position: w.position, route_strategy: w.route_strategy });
        }
        let name = match resolve_parameter(self.name.as_str(), &parameters) {
            Ok(n) => n,
            Err(e) => return Err(e),
        };
        let closed = match self.closed.resolve_to_literal(&parameters) {
            Ok(c) => c,
            Err(e) => return Err(e),
        };
        let parameter_declarations = match self.parameter_declarations {
            Some(d) => match route_parameter_declarations(d) {
                Ok(o) => Some(o),
                Err(e) => return Err(e),
            },
            None => None,
        };
        Ok(routing::Route { name: Value::Literal(name), closed, parameter_declarations, waypoints })
    }

    /// The parameters that route entries understand.
    fn parameter_schema() -> (r: Vec<ParameterDefinition>)
        ensures
            r@.len() == 3,
            r@[0].describes("StartRoadId"@, "String"@, "road_1"@, "ID of the starting road"@),
            r@[1].describes("EndRoadId"@, "String"@, "road_2"@, "ID of the ending road"@),
            r@[2].describes(
                "Closed"@,
                "Boolean"@,
                "false"@,
                "Whether the route is closed (loops back to start)"@,
            ),
    {
        vec![
            ParameterDefinition::new("StartRoadId", "String", "road_1", "ID of the starting road"),
            ParameterDefinition::new("EndRoadId", "String", "road_2", "ID of the ending road"),
            ParameterDefinition::new(
                "Closed",
                "Boolean",
                "false",
                "Whether the route is closed (loops back to start)",
            ),
        ]
    }

    /// The name of this entry.
    fn entity_name(&self) -> (r: &str)
        ensures
            r@ == self.name@,
    {
        self.name.as_str()
    }
}

} // verus!
