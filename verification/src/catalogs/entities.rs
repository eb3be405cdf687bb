//! Vehicles, controllers, pedestrians, objects and maneuvers as catalogs hold them, and
//! their resolution, under a parameter assignment, into scenario entities.
use vstd::prelude::*;
use crate::basic::{
    all_resolvable, first_failure, literal_of, name_resolution, resolve_parameter, resolved_name,
    text_of, Double, OSString, ParameterDeclarations, Real, Value,
};
use crate::controllers::Controller;
use crate::entities::axles::{Axle, Axles};
use crate::entities::pedestrian::Pedestrian;
use crate::entities::vehicle::{Performance, Properties, Vehicle};
use crate::enums::{ControllerType, MiscObjectCategory, PedestrianCategory, Role, VehicleCategory};
use crate::error::{Error, ErrorView};
use crate::geometry::BoundingBox;
use crate::params::ParameterMap;
use crate::story::Event;
use crate::text::float_text_matches;

verus! {

/// A catalog entry that resolves, under an assignment of its parameters, into an
/// element of a scenario.
pub trait CatalogEntity: Sized {
    /// The element that an entry resolves into.
    type ResolvedType;

    /// The element that this entry stands for under `parameters`.
    fn into_scenario_entity(self, parameters: ParameterMap) -> Result<Self::ResolvedType, Error>;

    /// The parameters that entries of this kind understand.
    fn parameter_schema() -> Vec<ParameterDefinition>;

    /// The name of this entry.
    fn entity_name(&self) -> &str;
}

/// A parameter that a kind of catalog entry understands: its name, type, default value
/// and meaning.
#[derive(Debug, Clone, PartialEq)]
pub struct ParameterDefinition {
    pub name: String,
    pub parameter_type: String,
    pub default_value: Option<String>,
    pub description: Option<String>,
}

impl ParameterDefinition {
    /// Whether this is the parameter `name` of type `parameter_type`, with default value
    /// `default_value` and description `description`.
    pub open spec fn describes(
        self,
        name: Seq<char>,
        parameter_type: Seq<char>,
        default_value: Seq<char>,
        description: Seq<char>,
    ) -> bool {
        &&& self.name@ == name
        &&& self.parameter_type@ == parameter_type
        &&& self.default_value matches Some(d) && d@ == default_value
        &&& self.description matches Some(d) && d@ == description
    }

    /// The parameter `name` of type `parameter_type`, with default value
    /// `default_value` and description `description`.
    pub fn new(name: &str, parameter_type: &str, default_value: &str, description: &str) -> (r: ParameterDefinition)
        ensures
            r.describes(name@, parameter_type@, default_value@, description@),
    {
        ParameterDefinition {
            name: name.to_owned(),
            parameter_type: parameter_type.to_owned(),
            default_value: Some(default_value.to_owned()),
            description: Some(description.to_owned()),
        }
    }
}

/// A vehicle of a catalog.
#[derive(Debug, Clone, PartialEq)]
pub struct CatalogVehicle {
    pub name: String,
    pub vehicle_category: OSString,
    pub bounding_box: BoundingBox,
    pub performance: CatalogPerformance,
    pub axles: CatalogAxles,
    pub properties: Option<Properties>,
    pub parameter_declarations: Option<ParameterDeclarations>,
}

/// The performance limits of a catalog vehicle.
#[derive(Debug, Clone, PartialEq)]
pub struct CatalogPerformance {
    pub max_speed: Double,
    pub max_acceleration: Double,
    pub max_deceleration: Double,
}

/// The axles of a catalog vehicle.
#[derive(Debug, Clone, PartialEq)]
pub struct CatalogAxles {
    pub front_axle: Option<CatalogFrontAxle>,
    pub rear_axle: CatalogRearAxle,
}

/// The front axle of a catalog vehicle.
#[derive(Debug, Clone, PartialEq)]
pub struct CatalogFrontAxle {
    pub max_steering: Double,
    pub wheel_diameter: Double,
    pub track_width: Double,
    pub position_x: Double,
    pub position_z: Double,
}

/// The rear axle of a catalog vehicle.
#[derive(Debug, Clone, PartialEq)]
pub struct CatalogRearAxle {
    pub max_steering: Double,
    pub wheel_diameter: Double,
    pub track_width: Double,
    pub position_x: Double,
    pub position_z: Double,
}

/// A controller of a catalog.
#[derive(Debug, Clone, PartialEq)]
pub struct CatalogController {
    pub name: String,
    pub controller_type: Option<OSString>,
    pub parameter_declarations: Option<ParameterDeclarations>,
    pub properties: Option<Properties>,
}

/// A pedestrian of a catalog.
#[derive(Debug, Clone, PartialEq)]
pub struct CatalogPedestrian {
    pub name: String,
    pub pedestrian_category: OSString,
    pub mass: OSString,
    pub role: Option<OSString>,
    pub model3d: Option<String>,
    pub bounding_box: BoundingBox,
    pub properties: Option<Properties>,
    pub parameter_declarations: Option<ParameterDeclarations>,
}

/// An object of a catalog.
#[derive(Debug, Clone, PartialEq)]
pub struct CatalogMiscObject {
    pub name: String,
    pub mass: Double,
    pub misc_object_category: MiscObjectCategory,
    pub model3d: Option<OSString>,
    pub bounding_box: BoundingBox,
    pub properties: Option<Properties>,
    pub parameter_declarations: Option<ParameterDeclarations>,
}

/// A maneuver of a catalog.
#[derive(Debug, Clone, PartialEq)]
pub struct CatalogManeuver {
    pub name: String,
    pub parameter_declarations: Option<ParameterDeclarations>,
    pub events: Vec<Event>,
}

// ---------------------------------------------------------------------------------
// Vehicles
// ---------------------------------------------------------------------------------

/// The vehicle category that a catalog vehicle may name as `s`: one of `car`, `truck`,
/// `bus`, `motorbike`, `bicycle`, `train` and `tram`.
pub open spec fn catalog_vehicle_category(s: Seq<char>) -> Option<VehicleCategory> {
    match VehicleCategory::from_wire_name(s) {
        Some(c) => if c == VehicleCategory::Car || c == VehicleCategory::Truck || c == VehicleCategory::Bus
            || c == VehicleCategory::Motorbike || c == VehicleCategory::Bicycle || c == VehicleCategory::Train
            || c == VehicleCategory::Tram {
            Some(c)
        } else {
            None
        },
        None => None,
    }
}

/// The message that lists the vehicle categories a catalog vehicle may name.
pub open spec fn vehicle_category_expectation() -> Seq<char> {
    "must be one of: car, truck, bus, motorbike, bicycle, train, tram"@
}

/// Whether `r` is what resolving the category attribute `category` of a catalog
/// vehicle under `params` gives.
pub open spec fn vehicle_category_resolution(category: OSString, params: ParameterMap, r: Result<VehicleCategory, Error>) -> bool {
    match text_of(category, params) {
        None => r matches Err(e) && category.resolves_to(params, Err(e)),
        Some(s) => match catalog_vehicle_category(s) {
            Some(c) => r == Ok::<VehicleCategory, Error>(c),
            None => r matches Err(e) && e@ == (ErrorView::InvalidValue {
                field: "vehicle_category"@,
                value: s,
                expected: vehicle_category_expectation(),
            }),
        },
    }
}

impl CatalogVehicle {
    /// The real-number values of this vehicle, in the order in which they are resolved
    /// after its box: the performance limits, the front axle's values if it has one,
    /// then the rear axle's.
    pub open spec fn resolved_values(self) -> Seq<Double> {
        let p = self.performance;
        let r = self.axles.rear_axle;
        let front = match self.axles.front_axle {
            Some(f) => seq![f.max_steering, f.wheel_diameter, f.track_width, f.position_x, f.position_z],
            None => Seq::empty(),
        };
        seq![p.max_speed, p.max_acceleration, p.max_deceleration] + front + seq![
            r.max_steering,
            r.wheel_diameter,
            r.track_width,
            r.position_x,
            r.position_z,
        ]
    }

    /// Whether `v` is this vehicle resolved under `params`, given that every step of
    /// the resolution succeeds.
    pub open spec fn resolves_into(self, params: ParameterMap, v: Vehicle) -> bool {
        &&& v.name matches Value::Literal(n) && resolved_name(self.name@, params) == Some(n@)
        &&& vehicle_category_resolution(self.vehicle_category, params, Ok(v.vehicle_category))
        &&& self.bounding_box.resolved_as(params, v.bounding_box)
        &&& literal_of(v.performance.max_speed, self.performance.max_speed, params)
        &&& literal_of(v.performance.max_acceleration, self.performance.max_acceleration, params)
        &&& v.performance.max_acceleration_rate is None
        &&& literal_of(v.performance.max_deceleration, self.performance.max_deceleration, params)
        &&& v.performance.max_deceleration_rate is None
        &&& match self.axles.front_axle {
            Some(f) => v.axles.front_axle matches Some(a) && {
                &&& literal_of(a.max_steering, f.max_steering, params)
                &&& literal_of(a.wheel_diameter, f.wheel_diameter, params)
                &&& literal_of(a.track_width, f.track_width, params)
                &&& literal_of(a.position_x, f.position_x, params)
                &&& literal_of(a.position_z, f.position_z, params)
            },
            None => v.axles.front_axle is None,
        }
        &&& literal_of(v.axles.rear_axle.max_steering, self.axles.rear_axle.max_steering, params)
        &&& literal_of(v.axles.rear_axle.wheel_diameter, self.axles.rear_axle.wheel_diameter, params)
        &&& literal_of(v.axles.rear_axle.track_width, self.axles.rear_axle.track_width, params)
        &&& literal_of(v.axles.rear_axle.position_x, self.axles.rear_axle.position_x, params)
        &&& literal_of(v.axles.rear_axle.position_z, self.axles.rear_axle.position_z, params)
        &&& v.axles.additional_axles@.len() == 0
        &&& v.role is None
        &&& v.mass is None
        &&& v.model3d is None
        &&& v.parameter_declarations is None
        &&& v.properties == self.properties
        &&& v.trailer_hitch is None
        &&& v.trailer_coupler is None
        &&& v.trailer is None
    }

    /// Resolves the name attribute `value` against `parameters`.
    fn resolve_parameter(&self, value: &str, parameters: &ParameterMap) -> (r: Result<String, Error>)
        ensures
            name_resolution(value@, *parameters, r),
    {
        resolve_parameter(value, parameters)
    }

    /// Resolves the category attribute `category` against `parameters`.
    fn resolve_vehicle_category(&self, category: &OSString, parameters: &ParameterMap) -> (r: Result<VehicleCategory, Error>)
        ensures
            vehicle_category_resolution(*category, *parameters, r),
    {
        let resolved = category.resolve(parameters);
        proof {
            crate::basic::lemma_string_resolution(*category, *parameters, resolved);
        }
        let category_str = match resolved {
            Ok(s) => s,
            Err(e) => return Err(e),
        };
        let invalid = match VehicleCategory::from_wire(category_str.as_str()) {
            Ok(c) => match c {
                VehicleCategory::Car | VehicleCategory::Truck | VehicleCategory::Bus | VehicleCategory::Motorbike
                | VehicleCategory::Bicycle | VehicleCategory::Train | VehicleCategory::Tram => return Ok(c),
                _ => true,
            },
            Err(_) => true,
        };
        assert(invalid);
        Err(Error::invalid_value(
            "vehicle_category",
            category_str.as_str(),
            "must be one of: car, truck, bus, motorbike, bicycle, train, tram",
        ))
    }

    /// Resolves `a` into an axle with every value a literal.
    fn resolve_axle(
        max_steering: &Double,
        wheel_diameter: &Double,
        track_width: &Double,
        position_x: &Double,
        position_z: &Double,
        parameters: &ParameterMap,
    ) -> (r: Result<Axle, Error>)
        ensures
            match r {
                Ok(a) => {
                    &&& all_resolvable(seq![*max_steering, *wheel_diameter, *track_width, *position_x, *position_z], *parameters)
                    &&& literal_of(a.max_steering, *max_steering, *parameters)
                    &&& literal_of(a.wheel_diameter, *wheel_diameter, *parameters)
                    &&& literal_of(a.track_width, *track_width, *parameters)
                    &&& literal_of(a.position_x, *position_x, *parameters)
                    &&& literal_of(a.position_z, *position_z, *parameters)
                },
                Err(e) => first_failure(seq![*max_steering, *wheel_diameter, *track_width, *position_x, *position_z], *parameters, e),
            },
    {
        let ghost vals = seq![*max_steering, *wheel_diameter, *track_width, *position_x, *position_z];
        let a = match max_steering.resolve_to_literal(parameters) {
            Ok(v) => v,
            Err(e) => {
                assert(crate::basic::fails_first_at(vals, *parameters, 0, e));
                return Err(e);
            },
        };
        let b = match wheel_diameter.resolve_to_literal(parameters) {
            Ok(v) => v,
            Err(e) => {
                assert(crate::basic::fails_first_at(vals, *parameters, 1, e));
                return Err(e);
            },
        };
        let c = match track_width.resolve_to_literal(parameters) {
            Ok(v) => v,
            Err(e) => {
                assert(crate::basic::fails_first_at(vals, *parameters, 2, e));
                return Err(e);
            },
        };
        let d = match position_x.resolve_to_literal(parameters) {
            Ok(v) => v,
            Err(e) => {
                assert(crate::basic::fails_first_at(vals, *parameters, 3, e));
                return Err(e);
            },
        };
        let f = match position_z.resolve_to_literal(parameters) {
            Ok(v) => v,
            Err(e) => {
                assert(crate::basic::fails_first_at(vals, *parameters, 4, e));
                return Err(e);
            },
        };
        Ok(Axle { max_steering: a, wheel_diameter: b, track_width: c, position_x: d, position_z: f })
    }
}

impl CatalogEntity for CatalogVehicle {
    type ResolvedType = Vehicle;

    /// The vehicle that this entry stands for under `parameters`: its name, category,
    /// box, performance and axles resolved, its properties carried over, and nothing
    /// else set. The name is resolved first, then the category, the box and the other
    /// values in the order of [`CatalogVehicle::resolved_values`]; the first that fails
    /// gives the error.
    fn into_scenario_entity(self, parameters: ParameterMap) -> (r: Result<Vehicle, Error>)
        ensures
            match r {
                Ok(v) => {
                    &&& all_resolvable(self.bounding_box.values(), parameters)
                    &&& all_resolvable(self.resolved_values(), parameters)
                    &&& self.resolves_into(parameters, v)
                },
                Err(e) => {
                    ||| name_resolution(self.name@, parameters, Err(e))
                    ||| resolved_name(self.name@, parameters) is Some
                        && vehicle_category_resolution(self.vehicle_category, parameters, Err(e))
                    ||| resolved_name(self.name@, parameters) is Some
                        && (exists|c: VehicleCategory| vehicle_category_resolution(self.vehicle_category, parameters, Ok(c)))
                        && first_failure(self.bounding_box.values(), parameters, e)
                    ||| resolved_name(self.name@, parameters) is Some
                        && (exists|c: VehicleCategory| vehicle_category_resolution(self.vehicle_category, parameters, Ok(c)))
                        && all_resolvable(self.bounding_box.values(), parameters)
                        && first_failure(self.resolved_values(), parameters, e)
                },
            },
    {
        let ghost this = self;
        let ghost vals = self.resolved_values();
        let name = match self.resolve_parameter(self.name.as_str(), &parameters) {
            Ok(n) => n,
            Err(e) => return Err(e),
        };
        let vehicle_category = match self.resolve_vehicle_category(&self.vehicle_category, &parameters) {
            Ok(c) => c,
            Err(e) => return Err(e),
        };
        let bounding_box = match self.bounding_box.resolve_parameters(&parameters) {
            Ok(b) => b,
            Err(e) => return Err(e),
        };
        let performance_values = CatalogVehicle::resolve_performance(&self.performance, &parameters);
        let performance = match performance_values {
            Ok(p) => p,
            Err(e) => {
                proof {
                    assert(vals.take(3) =~= seq![
                        this.performance.max_speed,
                        this.performance.max_acceleration,
                        this.performance.max_deceleration,
                    ]);
                    lemma_first_failure_prefix(vals, 3, parameters, e);
                }
                return Err(e);
            },
        };
        let (front_axle, front_len) = match &self.axles.front_axle {
            Some(f) => match CatalogVehicle::resolve_axle(
                &f.max_steering,
                &f.wheel_diameter,
                &f.track_width,
                &f.position_x,
                &f.position_z,
                &parameters,
            ) {
                Ok(a) => (Some(a), 5usize),
                Err(e) => {
                    proof {
                        assert(vals.take(3) =~= seq![
                            this.performance.max_speed,
                            this.performance.max_acceleration,
                            this.performance.max_deceleration,
                        ]);
                        assert(vals.subrange(3, 8) =~= seq![
                            f.max_steering,
                            f.wheel_diameter,
                            f.track_width,
                            f.position_x,
                            f.position_z,
                        ]);
                        lemma_first_failure_middle(vals, 3, 5, parameters, e);
                    }
                    return Err(e);
                },
            },
            None => (None, 0usize),
        };
        let r = &self.axles.rear_axle;
        let rear_axle = match CatalogVehicle::resolve_axle(
            &r.max_steering,
            &r.wheel_diameter,
            &r.track_width,
            &r.position_x,
            &r.position_z,
            &parameters,
        ) {
            Ok(a) => a,
            Err(e) => {
                proof {
                    let perf = seq![
                        this.performance.max_speed,
                        this.performance.max_acceleration,
                        this.performance.max_deceleration,
                    ];
                    assert forall|j: int| 0 <= j < 3 + front_len implies
                        #[trigger] vals.take(3 + front_len)[j].resolvable(parameters) by {
                        assert(vals.take(3 + front_len)[j] == vals[j]);
                        if j < 3 {
                            assert(vals[j] == perf[j]);
                        } else {
                            let f = this.axles.front_axle->0;
                            let fs = seq![f.max_steering, f.wheel_diameter, f.track_width, f.position_x, f.position_z];
                            assert(vals[j] == fs[j - 3]);
                        }
                    }
                    assert(vals.subrange(3 + front_len, 8 + front_len) =~= seq![
                        r.max_steering,
                        r.wheel_diameter,
                        r.track_width,
                        r.position_x,
                        r.position_z,
                    ]);
                    lemma_first_failure_middle(vals, 3 + front_len, 5, parameters, e);
                }
                return Err(e);
            },
        };
        proof {
            assert forall|i: int| 0 <= i < vals.len() implies #[trigger] vals[i].resolvable(parameters) by {
                if i < 3 {
                } else if i < 3 + front_len {
                } else {
                }
            }
        }
        Ok(Vehicle {
            name: Value::Literal(name),
            vehicle_category,
            role: None,
            mass: None,
            model3d: None,
            parameter_declarations: None,
            bounding_box,
            performance,
            axles: Axles { front_axle, rear_axle, additional_axles: Vec::new() },
            properties: self.properties,
            trailer_hitch: None,
            trailer_coupler: None,
            trailer: None,
        })
    }

    /// The parameters that vehicle entries understand.
    fn parameter_schema() -> (r: Vec<ParameterDefinition>)
        ensures
            r@.len() == 4,
            r@[0].describes("MaxSpeed"@, "Double"@, "200.0"@, "Maximum speed of the vehicle in m/s"@),
            r@[1].describes("MaxAcceleration"@, "Double"@, "200.0"@, "Maximum acceleration of the vehicle in m/s²"@),
            r@[2].describes("MaxDeceleration"@, "Double"@, "10.0"@, "Maximum deceleration of the vehicle in m/s²"@),
            r@[3].describes("VehicleCategory"@, "String"@, "car"@, "Category of the vehicle (car, truck, bus, etc.)"@),
    {
        vec![
            ParameterDefinition::new("MaxSpeed", "Double", "200.0", "Maximum speed of the vehicle in m/s"),
            ParameterDefinition::new("MaxAcceleration", "Double", "200.0", "Maximum acceleration of the vehicle in m/s²"),
            ParameterDefinition::new("MaxDeceleration", "Double", "10.0", "Maximum deceleration of the vehicle in m/s²"),
            ParameterDefinition::new("VehicleCategory", "String", "car", "Category of the vehicle (car, truck, bus, etc.)"),
        ]
    }

    /// The name of this entry.
    fn entity_name(&self) -> (r: &str)
        ensures
            r@ == self.name@,
    {
        self.name.as_str()
    }
}

impl CatalogVehicle {
    /// Resolves the three performance limits, in order.
    fn resolve_performance(p: &CatalogPerformance, parameters: &ParameterMap) -> (r: Result<Performance, Error>)
        ensures
            match r {
                Ok(out) => {
                    &&& all_resolvable(seq![p.max_speed, p.max_acceleration, p.max_deceleration], *parameters)
                    &&& literal_of(out.max_speed, p.max_speed, *parameters)
                    &&& literal_of(out.max_acceleration, p.max_acceleration, *parameters)
                    &&& out.max_acceleration_rate is None
                    &&& literal_of(out.max_deceleration, p.max_deceleration, *parameters)
                    &&& out.max_deceleration_rate is None
                },
                Err(e) => first_failure(seq![p.max_speed, p.max_acceleration, p.max_deceleration], *parameters, e),
            },
    {
        let ghost vals = seq![p.max_speed, p.max_acceleration, p.max_deceleration];
        let max_speed = match p.max_speed.resolve_to_literal(parameters) {
            Ok(v) => v,
            Err(e) => {
                assert(crate::basic::fails_first_at(vals, *parameters, 0, e));
                return Err(e);
            },
        };
        let max_acceleration = match p.max_acceleration.resolve_to_literal(parameters) {
            Ok(v) => v,
            Err(e) => {
                assert(crate::basic::fails_first_at(vals, *parameters, 1, e));
                return Err(e);
            },
        };
        let max_deceleration = match p.max_deceleration.resolve_to_literal(parameters) {
            Ok(v) => v,
            Err(e) => {
                assert(crate::basic::fails_first_at(vals, *parameters, 2, e));
                return Err(e);
            },
        };
        Ok(Performance {
            max_speed,
            max_acceleration,
            max_acceleration_rate: None,
            max_deceleration,
            max_deceleration_rate: None,
        })
    }
}

/// A failure at the first `n` values of `vals` is a failure of `vals`.
proof fn lemma_first_failure_prefix(vals: Seq<Double>, n: int, params: ParameterMap, e: Error)
    requires
        0 <= n <= vals.len(),
        first_failure(vals.take(n), params, e),
    ensures
        first_failure(vals, params, e),
{
    let i = choose|i: int| #[trigger] crate::basic::fails_first_at(vals.take(n), params, i, e);
    assert forall|j: int| 0 <= j < i implies #[trigger] vals[j].resolvable(params) by {
        assert(vals.take(n)[j] == vals[j]);
    }
    assert(vals.take(n)[i] == vals[i]);
    assert(crate::basic::fails_first_at(vals, params, i, e));
}

/// A failure at the `len` values of `vals` from `start` on, when all before resolve, is
/// a failure of `vals`.
proof fn lemma_first_failure_middle(vals: Seq<Double>, start: int, len: int, params: ParameterMap, e: Error)
    requires
        0 <= start,
        0 <= len,
        start + len <= vals.len(),
        all_resolvable(vals.take(start), params),
        first_failure(vals.subrange(start, start + len), params, e),
    ensures
        first_failure(vals, params, e),
{
    let i = choose|i: int| #[trigger] crate::basic::fails_first_at(vals.subrange(start, start + len), params, i, e);
    assert forall|j: int| 0 <= j < start + i implies #[trigger] vals[j].resolvable(params) by {
        if j < start {
            assert(vals.take(start)[j] == vals[j]);
        } else {
            assert(vals.subrange(start, start + len)[j - start] == vals[j]);
        }
    }
    assert(vals.subrange(start, start + len)[i] == vals[start + i]);
    assert(crate::basic::fails_first_at(vals, params, start + i, e));
}


// ---------------------------------------------------------------------------------
// Controllers and pedestrians
// ---------------------------------------------------------------------------------

/// Whether `r` is what resolving the name attribute `name` of a controller or
/// pedestrian entry under `params` gives: the text it stands for, or, when it names a
/// parameter that `params` does not assign, a catalog error naming that parameter.
pub open spec fn entry_name_resolution(name: Seq<char>, params: ParameterMap, r: Result<String, Error>) -> bool {
    match r {
        Ok(s) => resolved_name(name, params) == Some(s@),
        Err(e) => resolved_name(name, params) is None && e@ == (ErrorView::CatalogError {
            message: "Parameter '"@ + name.subrange(1, name.len() as int) + "' not found in substitution map"@,
        }),
    }
}

/// Resolves the name attribute `value` of a controller or pedestrian entry: a name
/// beginning with `$` is replaced by the value of the parameter it names.
fn resolve_entry_name(value: &str, parameters: &ParameterMap) -> (r: Result<String, Error>)
    ensures
        entry_name_resolution(value@, *parameters, r),
{
    match resolve_parameter(value, parameters) {
        Ok(s) => Ok(s),
        Err(_) => {
            let param_name = crate::text::str_skip(value, 1);
            let mut message: String = "Parameter '".to_owned();
            message.append(param_name.as_str());
            message.append("' not found in substitution map");
            Err(Error::catalog_error(message))
        },
    }
}

/// Whether `r` is what resolving the type attribute `controller_type` of a catalog
/// controller under `params` gives: any controller type but `all` is accepted.
pub open spec fn controller_type_resolution(controller_type: OSString, params: ParameterMap, r: Result<ControllerType, Error>) -> bool {
    match text_of(controller_type, params) {
        None => r matches Err(e) && controller_type.resolves_to(params, Err(e)),
        Some(s) => match ControllerType::from_wire_name(s) {
            Some(c) if c != ControllerType::All => r == Ok::<ControllerType, Error>(c),
            _ => r matches Err(e) && e@ == (ErrorView::CatalogError { message: "Invalid controller type: "@ + s }),
        },
    }
}

/// Whether `r` is what resolving the category attribute `category` of a catalog
/// pedestrian under `params` gives.
pub open spec fn pedestrian_category_resolution(category: OSString, params: ParameterMap, r: Result<PedestrianCategory, Error>) -> bool {
    match text_of(category, params) {
        None => r matches Err(e) && category.resolves_to(params, Err(e)),
        Some(s) => match PedestrianCategory::from_wire_name(s) {
            Some(c) => r == Ok::<PedestrianCategory, Error>(c),
            None => r matches Err(e) && e@ == (ErrorView::CatalogError { message: "Invalid pedestrian category: "@ + s }),
        },
    }
}

/// Whether `r` is what resolving the role attribute `role` of a catalog pedestrian
/// under `params` gives.
pub open spec fn role_resolution(role: OSString, params: ParameterMap, r: Result<Role, Error>) -> bool {
    match text_of(role, params) {
        None => r matches Err(e) && role.resolves_to(params, Err(e)),
        Some(s) => match Role::from_wire_name(s) {
            Some(c) => r == Ok::<Role, Error>(c),
            None => r matches Err(e) && e@ == (ErrorView::CatalogError { message: "Invalid role: "@ + s }),
        },
    }
}

/// The message for a mass whose text `s` is no real number.
pub open spec fn mass_parse_message(s: Seq<char>) -> Seq<char> {
    if s.len() == 0 {
        "Failed to parse mass value: cannot parse float from empty string"@
    } else {
        "Failed to parse mass value: invalid float literal"@
    }
}

/// Whether `r` is what reading the mass attribute `mass` of a catalog pedestrian
/// under `params` gives: the real number its text writes.
pub open spec fn mass_resolution(mass: OSString, params: ParameterMap, r: Result<Double, Error>) -> bool {
    match text_of(mass, params) {
        None => r matches Err(e) && mass.resolves_to(params, Err(e)),
        Some(s) => if crate::text::is_float_text(s) {
            r matches Ok(m) && m matches Value::Literal(x) && x.text@ == s
        } else {
            r matches Err(e) && e@ == (ErrorView::CatalogError { message: mass_parse_message(s) })
        },
    }
}

impl CatalogController {
    /// Resolves the name attribute `value` against `parameters`.
    fn resolve_parameter(&self, value: &str, parameters: &ParameterMap) -> (r: Result<String, Error>)
        ensures
            entry_name_resolution(value@, *parameters, r),
    {
        resolve_entry_name(value, parameters)
    }

    /// Resolves the type attribute `controller_type` against `parameters`.
    fn resolve_controller_type(&self, controller_type: &OSString, parameters: &ParameterMap) -> (r: Result<ControllerType, Error>)
        ensures
            controller_type_resolution(*controller_type, *parameters, r),
    {
        let resolved = controller_type.resolve(parameters);
        proof {
            crate::basic::lemma_string_resolution(*controller_type, *parameters, resolved);
        }
        let type_str = match resolved {
            Ok(s) => s,
            Err(e) => return Err(e),
        };
        match ControllerType::from_wire(type_str.as_str()) {
            Ok(ControllerType::All) => {},
            Ok(c) => return Ok(c),
            Err(_) => {},
        }
        let mut message: String = "Invalid controller type: ".to_owned();
        message.append(type_str.as_str());
        Err(Error::catalog_error(message))
    }
}

impl CatalogEntity for CatalogController {
    type ResolvedType = Controller;

    /// The controller that this entry stands for under `parameters`: its name and type
    /// resolved, the type `movement` when none is given, its properties carried over.
    /// The name is resolved first, then the type.
    fn into_scenario_entity(self, parameters: ParameterMap) -> (r: Result<Controller, Error>)
        ensures
            match r {
                Ok(c) => {
                    &&& c.name matches Value::Literal(n) && resolved_name(self.name@, parameters) == Some(n@)
                    &&& match self.controller_type {
                        Some(t) => c.controller_type matches Some(k)
                            && controller_type_resolution(t, parameters, Ok(k)),
                        None => c.controller_type == Some(ControllerType::Movement),
                    }
                    &&& c.parameter_declarations is None
                    &&& c.properties == self.properties
                },
                Err(e) => {
                    ||| entry_name_resolution(self.name@, parameters, Err(e))
                    ||| resolved_name(self.name@, parameters) is Some
                        && (self.controller_type matches Some(t)
                        && controller_type_resolution(t, parameters, Err(e)))
                },
            },
    {
        let name = match self.resolve_parameter(self.name.as_str(), &parameters) {
            Ok(n) => n,
            Err(e) => return Err(e),
        };
        let controller_type = match &self.controller_type {
            Some(t) => match self.resolve_controller_type(t, &parameters) {
                Ok(k) => Some(k),
                Err(e) => return Err(e),
            },
            None => Some(ControllerType::Movement),
        };
        Ok(Controller {
            name: Value::Literal(name),
            controller_type,
            parameter_declarations: None,
            properties: self.properties,
        })
    }

    /// The parameters that controller entries understand.
    fn parameter_schema() -> (r: Vec<ParameterDefinition>)
        ensures
            r@.len() == 1,
            r@[0].describes(
                "ControllerType"@,
                "String"@,
                "movement"@,
                "Type of controller (movement, lateral, longitudinal, etc.)"@,
            ),
    {
        vec![ParameterDefinition::new(
            "ControllerType",
            "String",
            "movement",
            "Type of controller (movement, lateral, longitudinal, etc.)",
        )]
    }

    /// The name of this entry.
    fn entity_name(&self) -> (r: &str)
        ensures
            r@ == self.name@,
    {
        self.name.as_str()
    }
}

impl CatalogPedestrian {
    /// Resolves the name attribute `value` against `parameters`.
    fn resolve_parameter(&self, value: &str, parameters: &ParameterMap) -> (r: Result<String, Error>)
        ensures
            entry_name_resolution(value@, *parameters, r),
    {
        resolve_entry_name(value, parameters)
    }

    /// Resolves the category attribute `category` against `parameters`.
    fn resolve_pedestrian_category(&self, category: &OSString, parameters: &ParameterMap) -> (r: Result<PedestrianCategory, Error>)
        ensures
            pedestrian_category_resolution(*category, *parameters, r),
    {
        let resolved = category.resolve(parameters);
        proof {
            crate::basic::lemma_string_resolution(*category, *parameters, resolved);
        }
        let category_str = match resolved {
            Ok(s) => s,
            Err(e) => return Err(e),
        };
        match PedestrianCategory::from_wire(category_str.as_str()) {
            Ok(c) => Ok(c),
            Err(_) => {
                let mut message: String = "Invalid pedestrian category: ".to_owned();
                message.append(category_str.as_str());
                Err(Error::catalog_error(message))
            },
        }
    }

    /// Resolves the role attribute `role` against `parameters`.
    fn resolve_role(&self, role: &OSString, parameters: &ParameterMap) -> (r: Result<Role, Error>)
        ensures
            role_resolution(*role, *parameters, r),
    {
        let resolved = role.resolve(parameters);
        proof {
            crate::basic::lemma_string_resolution(*role, *parameters, resolved);
        }
        let role_str = match resolved {
            Ok(s) => s,
            Err(e) => return Err(e),
        };
        match Role::from_wire(role_str.as_str()) {
            Ok(c) => Ok(c),
            Err(_) => {
                let mut message: String = "Invalid role: ".to_owned();
                message.append(role_str.as_str());
                Err(Error::catalog_error(message))
            },
        }
    }

    /// Reads the mass attribute `mass` under `parameters` as a real number.
    fn resolve_mass(mass: &OSString, parameters: &ParameterMap) -> (r: Result<Double, Error>)
        ensures
            mass_resolution(*mass, *parameters, r),
    {
        let resolved = mass.resolve(parameters);
        proof {
            crate::basic::lemma_string_resolution(*mass, *parameters, resolved);
        }
        let resolved_mass = match resolved {
            Ok(s) => s,
            Err(e) => return Err(e),
        };
        if float_text_matches(resolved_mass.as_str()) {
            Ok(Value::Literal(Real::new(resolved_mass.as_str())))
        } else if resolved_mass.as_str().unicode_len() == 0 {
            Err(Error::catalog_error("Failed to parse mass value: cannot parse float from empty string".to_owned()))
        } else {
            Err(Error::catalog_error("Failed to parse mass value: invalid float literal".to_owned()))
        }
    }
}

impl CatalogEntity for CatalogPedestrian {
    type ResolvedType = Pedestrian;

    /// The pedestrian that this entry stands for under `parameters`: its mass read as
    /// a real number, its name, category, role and box resolved, its model and
    /// properties carried over. The mass is read first, then the name, the category,
    /// the role and the box; the first that fails gives the error.
    fn into_scenario_entity(self, parameters: ParameterMap) -> (r: Result<Pedestrian, Error>)
        ensures
            match r {
                Ok(p) => {
                    &&& mass_resolution(self.mass, parameters, Ok(p.mass))
                    &&& p.name matches Value::Literal(n) && resolved_name(self.name@, parameters) == Some(n@)
                    &&& pedestrian_category_resolution(self.pedestrian_category, parameters, Ok(p.pedestrian_category))
                    &&& match self.role {
                        Some(role) => p.role matches Some(k) && role_resolution(role, parameters, Ok(k)),
                        None => p.role is None,
                    }
                    &&& p.model3d == self.model3d
                    &&& all_resolvable(self.bounding_box.values(), parameters)
                    &&& self.bounding_box.resolved_as(parameters, p.bounding_box)
                    &&& p.properties == self.properties
                    &&& p.parameter_declarations is None
                },
                Err(e) => {
                    let mass_ok = exists|m: Double| mass_resolution(self.mass, parameters, Ok(m));
                    let name_ok = resolved_name(self.name@, parameters) is Some;
                    let category_ok = exists|c: PedestrianCategory|
                        pedestrian_category_resolution(self.pedestrian_category, parameters, Ok(c));
                    let role_ok = match self.role {
                        Some(role) => exists|k: Role| role_resolution(role, parameters, Ok(k)),
                        None => true,
                    };
                    ||| mass_resolution(self.mass, parameters, Err(e))
                    ||| mass_ok && entry_name_resolution(self.name@, parameters, Err(e))
                    ||| mass_ok && name_ok && pedestrian_category_resolution(self.pedestrian_category, parameters, Err(e))
                    ||| mass_ok && name_ok && category_ok && (self.role matches Some(role)
                        && role_resolution(role, parameters, Err(e)))
                    ||| mass_ok && name_ok && category_ok && role_ok
                        && first_failure(self.bounding_box.values(), parameters, e)
                },
            },
    {
        let mass = match CatalogPedestrian::resolve_mass(&self.mass, &parameters) {
            Ok(m) => m,
            Err(e) => return Err(e),
        };
        let name = match self.resolve_parameter(self.name.as_str(), &parameters) {
            Ok(n) => n,
            Err(e) => return Err(e),
        };
        let pedestrian_category = match self.resolve_pedestrian_category(&self.pedestrian_category, &parameters) {
            Ok(c) => c,
            Err(e) => return Err(e),
        };
        let role = match &self.role {
            Some(role) => match self.resolve_role(role, &parameters) {
                Ok(k) => Some(k),
                Err(e) => return Err(e),
            },
            None => None,
        };
        let bounding_box = match self.bounding_box.resolve_parameters(&parameters) {
            Ok(b) => b,
            Err(e) => return Err(e),
        };
        Ok(Pedestrian {
            name: Value::Literal(name),
            pedestrian_category,
            mass,
            role,
            model3d: self.model3d,
            bounding_box,
            properties: self.properties,
            parameter_declarations: None,
        })
    }

    /// The parameters that pedestrian entries understand.
    fn parameter_schema() -> (r: Vec<ParameterDefinition>)
        ensures
            r@.len() == 3,
            r@[0].describes(
                "PedestrianCategory"@,
                "String"@,
                "pedestrian"@,
                "Category of pedestrian (pedestrian, wheelchair, animal)"@,
            ),
            r@[1].describes("Mass"@, "Double"@, "75.0"@, "Mass of pedestrian in kg"@),
            r@[2].describes("Role"@, "String"@, "none"@, "Role of pedestrian (civil, police, etc.)"@),
    {
        vec![
            ParameterDefinition::new(
                "PedestrianCategory",
                "String",
                "pedestrian",
                "Category of pedestrian (pedestrian, wheelchair, animal)",
            ),
            ParameterDefinition::new("Mass", "Double", "75.0", "Mass of pedestrian in kg"),
            ParameterDefinition::new("Role", "String", "none", "Role of pedestrian (civil, police, etc.)"),
        ]
    }

    /// The name of this entry.
    fn entity_name(&self) -> (r: &str)
        ensures
            r@ == self.name@,
    {
        self.name.as_str()
    }
}

// ---------------------------------------------------------------------------------
// Objects and maneuvers
// ---------------------------------------------------------------------------------

impl CatalogEntity for CatalogMiscObject {
    type ResolvedType = String;

    /// The text `MiscObject:` followed by the entry's name; the parameters are not
    /// used.
    fn into_scenario_entity(self, parameters: ParameterMap) -> (r: Result<String, Error>)
        ensures
            r matches Ok(s) && s@ == "MiscObject:"@ + self.name@,
    {
        let mut s: String = "MiscObject:".to_owned();
        s.append(self.name.as_str());
        Ok(s)
    }

    /// The parameters that object entries understand.
    fn parameter_schema() -> (r: Vec<ParameterDefinition>)
        ensures
            r@.len() == 5,
            r@[0].describes("Width"@, "Double"@, "1.0"@, "Width of the miscellaneous object in meters"@),
            r@[1].describes("Length"@, "Double"@, "1.0"@, "Length of the miscellaneous object in meters"@),
            r@[2].describes("Height"@, "Double"@, "1.0"@, "Height of the miscellaneous object in meters"@),
            r@[3].describes("Mass"@, "Double"@, "1.0"@, "Mass of the miscellaneous object in kg"@),
            r@[4].describes("MiscObjectCategory"@, "String"@, "obstacle"@, "Category of the miscellaneous object"@),
    {
        vec![
            ParameterDefinition::new("Width", "Double", "1.0", "Width of the miscellaneous object in meters"),
            ParameterDefinition::new("Length", "Double", "1.0", "Length of the miscellaneous object in meters"),
            ParameterDefinition::new("Height", "Double", "1.0", "Height of the miscellaneous object in meters"),
            ParameterDefinition::new("Mass", "Double", "1.0", "Mass of the miscellaneous object in kg"),
            ParameterDefinition::new("MiscObjectCategory", "String", "obstacle", "Category of the miscellaneous object"),
        ]
    }

    /// The name of this entry.
    fn entity_name(&self) -> (r: &str)
        ensures
            r@ == self.name@,
    {
        self.name.as_str()
    }
}

impl CatalogEntity for CatalogManeuver {
    type ResolvedType = String;

    /// The text `Maneuver:` followed by the entry's name; the parameters are not used.
    fn into_scenario_entity(self, parameters: ParameterMap) -> (r: Result<String, Error>)
        ensures
            r matches Ok(s) && s@ == "Maneuver:"@ + self.name@,
    {
        let mut s: String = "Maneuver:".to_owned();
        s.append(self.name.as_str());
        Ok(s)
    }

    /// The parameters that maneuver entries understand.
    fn parameter_schema() -> (r: Vec<ParameterDefinition>)
        ensures
            r@.len() == 3,
            r@[0].describes("Duration"@, "Double"@, "10.0"@, "Duration of the maneuver in seconds"@),
            r@[1].describes("TargetSpeed"@, "Double"@, "30.0"@, "Target speed for the maneuver in m/s"@),
            r@[2].describes(
                "ManeuverType"@,
                "String"@,
                "lane_change"@,
                "Type of maneuver (lane_change, overtake, merge, etc.)"@,
            ),
    {
        vec![
            ParameterDefinition::new("Duration", "Double", "10.0", "Duration of the maneuver in seconds"),
            ParameterDefinition::new("TargetSpeed", "Double", "30.0", "Target speed for the maneuver in m/s"),
            ParameterDefinition::new(
                "ManeuverType",
                "String",
                "lane_change",
                "Type of maneuver (lane_change, overtake, merge, etc.)",
            ),
        ]
    }

    /// The name of this entry.
    fn entity_name(&self) -> (r: &str)
        ensures
            r@ == self.name@,
    {
        self.name.as_str()
    }
}

/// Resolving a catalog vehicle's category fails when its attribute stands for no text
/// or for a text that names none of `car`, `truck`, `bus`, `motorbike`, `bicycle`,
/// `train` and `tram`; a text that names one of these gives that category.
pub proof fn lemma_vehicle_category_mapping(
    category: OSString,
    params: ParameterMap,
    r: Result<VehicleCategory, Error>,
    c: VehicleCategory,
)
    requires
        vehicle_category_resolution(category, params, r),
    ensures
        text_of(category, params) is None ==> r is Err,
        text_of(category, params) matches Some(s) && catalog_vehicle_category(s) is None ==> r is Err,
        text_of(category, params) == Some(c.wire_name()) ==> (
            if c == VehicleCategory::Car || c == VehicleCategory::Truck || c == VehicleCategory::Bus
                || c == VehicleCategory::Motorbike || c == VehicleCategory::Bicycle
                || c == VehicleCategory::Train || c == VehicleCategory::Tram {
                r == Ok::<VehicleCategory, Error>(c)
            } else {
                r is Err
            }),
        text_of(category, params) == Some("car"@) ==> r == Ok::<VehicleCategory, Error>(VehicleCategory::Car),
        text_of(category, params) == Some("truck"@) ==> r == Ok::<VehicleCategory, Error>(VehicleCategory::Truck),
        text_of(category, params) == Some("bus"@) ==> r == Ok::<VehicleCategory, Error>(VehicleCategory::Bus),
        text_of(category, params) == Some("motorbike"@) ==> r == Ok::<VehicleCategory, Error>(VehicleCategory::Motorbike),
        text_of(category, params) == Some("bicycle"@) ==> r == Ok::<VehicleCategory, Error>(VehicleCategory::Bicycle),
        text_of(category, params) == Some("train"@) ==> r == Ok::<VehicleCategory, Error>(VehicleCategory::Train),
        text_of(category, params) == Some("tram"@) ==> r == Ok::<VehicleCategory, Error>(VehicleCategory::Tram),
        text_of(category, params) is Some && text_of(category, params)->0 != "car"@ && text_of(category, params)->0 != "truck"@ && text_of(category, params)->0 != "bus"@ && text_of(category, params)->0 != "motorbike"@ && text_of(category, params)->0 != "bicycle"@ && text_of(category, params)->0 != "train"@ && text_of(category, params)->0 != "tram"@ ==> r is Err,
{
    VehicleCategory::lemma_wire_name_round_trip(c);
    VehicleCategory::lemma_written_names();
    if text_of(category, params) is Some {
        VehicleCategory::lemma_parsed_text_is_wire_name(text_of(category, params)->0);
    }
}

/// Resolving a catalog pedestrian's role gives the role whose name its attribute stands
/// for, and fails, with `Invalid role: ` and the text, when the text names no role.
pub proof fn lemma_role_mapping(role: OSString, params: ParameterMap, r: Result<Role, Error>, c: Role)
    requires
        role_resolution(role, params, r),
    ensures
        text_of(role, params) is None ==> r is Err,
        text_of(role, params) == Some(c.wire_name()) ==> r == Ok::<Role, Error>(c),
        text_of(role, params) is Some && Role::from_wire_name(text_of(role, params)->0) is None ==> (r is Err
            && r->Err_0@ == (ErrorView::CatalogError { message: "Invalid role: "@ + text_of(role, params)->0 })),
{
    Role::lemma_wire_name_round_trip(c);
}

/// Resolving a catalog controller's type gives the type whose name its attribute stands
/// for, except `all`, which is refused like a text that names no type, with
/// `Invalid controller type: ` and the text.
pub proof fn lemma_controller_type_mapping(
    controller_type: OSString,
    params: ParameterMap,
    r: Result<ControllerType, Error>,
    c: ControllerType,
)
    requires
        controller_type_resolution(controller_type, params, r),
    ensures
        text_of(controller_type, params) is None ==> r is Err,
        text_of(controller_type, params) == Some(c.wire_name()) && c != ControllerType::All
            ==> r == Ok::<ControllerType, Error>(c),
        text_of(controller_type, params) is Some && (ControllerType::from_wire_name(text_of(controller_type, params)->0) is None
            || ControllerType::from_wire_name(text_of(controller_type, params)->0) == Some(ControllerType::All)) ==> (r is Err
            && r->Err_0@ == (ErrorView::CatalogError {
                message: "Invalid controller type: "@ + text_of(controller_type, params)->0,
            })),
        text_of(controller_type, params) == Some("movement"@) ==> r == Ok::<ControllerType, Error>(ControllerType::Movement),
        text_of(controller_type, params) == Some("lateral"@) ==> r == Ok::<ControllerType, Error>(ControllerType::Lateral),
        text_of(controller_type, params) == Some("longitudinal"@) ==> r == Ok::<ControllerType, Error>(ControllerType::Longitudinal),
        text_of(controller_type, params) == Some("lighting"@) ==> r == Ok::<ControllerType, Error>(ControllerType::Lighting),
        text_of(controller_type, params) == Some("animation"@) ==> r == Ok::<ControllerType, Error>(ControllerType::Animation),
        text_of(controller_type, params) == Some("appearance"@) ==> r == Ok::<ControllerType, Error>(ControllerType::Appearance),
        text_of(controller_type, params) == Some("all"@) ==> (r is Err
            && r->Err_0@ == (ErrorView::CatalogError { message: "Invalid controller type: all"@ })),
{
    ControllerType::lemma_wire_name_round_trip(c);
    ControllerType::lemma_written_names();
    reveal_strlit("Invalid controller type: ");
    reveal_strlit("all");
    reveal_strlit("Invalid controller type: all");
    assert("Invalid controller type: "@ + "all"@ =~= "Invalid controller type: all"@);
}

/// The name of a controller or pedestrian entry: a name `$k` stands for the value
/// assigned to `k`, and fails with a catalog error naming `k` when none is; any other
/// name stands for itself whatever is assigned.
pub proof fn lemma_entry_name_mapping(name: Seq<char>, params: ParameterMap, r: Result<String, Error>)
    requires
        entry_name_resolution(name, params, r),
    ensures
        crate::basic::is_parameter_reference(name) && params.lookup(name.subrange(1, name.len() as int)) is Some
            ==> (r is Ok && r->Ok_0@ == params.lookup(name.subrange(1, name.len() as int))->0),
        crate::basic::is_parameter_reference(name) && params.lookup(name.subrange(1, name.len() as int)) is None
            ==> (r is Err && r->Err_0@ == (ErrorView::CatalogError {
                message: "Parameter '"@ + name.subrange(1, name.len() as int) + "' not found in substitution map"@,
            })),
        !crate::basic::is_parameter_reference(name) ==> (r is Ok && r->Ok_0@ == name),
{
}

} // verus!
