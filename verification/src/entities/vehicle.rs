//! Vehicles, their performance, trailers and properties.
use vstd::prelude::*;
use crate::basic::{is_real_literal, is_str_literal, real_literal, Double, OSString, ParameterDeclarations, Value};
use crate::entities::axles::{is_axle, Axles};
use crate::entities::ScenarioObject;
use crate::enums::{Role, VehicleCategory};
use crate::geometry::{BoundingBox, Center, Dimensions};
use crate::references::EntityRef;

verus! {

/// The performance limits of a vehicle.
#[derive(Debug, Clone, PartialEq)]
pub struct Performance {
    pub max_speed: Double,
    pub max_acceleration: Double,
    pub max_acceleration_rate: Option<Double>,
    pub max_deceleration: Double,
    pub max_deceleration_rate: Option<Double>,
}

/// The point at which a towing vehicle's hitch is mounted.
#[derive(Debug, Clone, PartialEq)]
pub struct TrailerHitch {
    pub dx: Double,
    pub dz: Option<Double>,
}

/// The point at which a trailer's coupler is mounted.
#[derive(Debug, Clone, PartialEq)]
pub struct TrailerCoupler {
    pub dx: Double,
    pub dz: Option<Double>,
}

/// The trailer of a vehicle: a scenario object given in place, or a reference to an
/// entity that acts as the trailer.
#[derive(Debug, Clone, PartialEq)]
pub struct Trailer {
    pub trailer: Option<Box<ScenarioObject>>,
    pub trailer_ref: Option<EntityRef>,
}

/// Properties, files and custom content attached to an element.
#[derive(Debug, Clone, PartialEq)]
pub struct Properties {
    pub properties: Vec<Property>,
    pub files: Vec<File>,
    pub custom_content: Vec<CustomContent>,
}

/// Content in a form of the author's choosing.
#[derive(Debug, Clone, PartialEq)]
pub struct CustomContent {
    pub content: Option<String>,
}

/// A named property and its value.
#[derive(Debug, Clone, PartialEq)]
pub struct Property {
    pub name: String,
    pub value: String,
}

/// A reference to a file.
#[derive(Debug, Clone, PartialEq)]
pub struct File {
    pub filepath: String,
}

/// A vehicle.
#[derive(Debug, Clone, PartialEq)]
pub struct Vehicle {
    pub name: OSString,
    pub vehicle_category: VehicleCategory,
    pub role: Option<Role>,
    pub mass: Option<Double>,
    pub model3d: Option<OSString>,
    pub parameter_declarations: Option<ParameterDeclarations>,
    pub bounding_box: BoundingBox,
    pub performance: Performance,
    pub axles: Axles,
    pub properties: Option<Properties>,
    pub trailer_hitch: Option<TrailerHitch>,
    pub trailer_coupler: Option<TrailerCoupler>,
    pub trailer: Option<Trailer>,
}

impl Default for Properties {
    /// No properties, files or custom content.
    fn default() -> (r: Properties)
        ensures
            r.properties@.len() == 0,
            r.files@.len() == 0,
            r.custom_content@.len() == 0,
    {
        Properties { properties: Vec::new(), files: Vec::new(), custom_content: Vec::new() }
    }
}

impl Default for CustomContent {
    /// No content.
    fn default() -> (r: CustomContent)
        ensures
            r.content is None,
    {
        CustomContent { content: None }
    }
}

/// Whether `p` limits speed, acceleration and deceleration to the values written as
/// given, with no limits on their rates.
pub open spec fn is_performance(p: Performance, max_speed: Seq<char>, max_acceleration: Seq<char>, max_deceleration: Seq<char>) -> bool {
    &&& is_real_literal(p.max_speed, max_speed)
    &&& is_real_literal(p.max_acceleration, max_acceleration)
    &&& p.max_acceleration_rate is None
    &&& is_real_literal(p.max_deceleration, max_deceleration)
    &&& p.max_deceleration_rate is None
}

/// Whether `v` carries no role, mass, model, declarations, properties, hitch, coupler
/// or trailer.
pub open spec fn is_bare(v: Vehicle) -> bool {
    &&& v.role is None
    &&& v.mass is None
    &&& v.model3d is None
    &&& v.parameter_declarations is None
    &&& v.properties is None
    &&& v.trailer_hitch is None
    &&& v.trailer_coupler is None
    &&& v.trailer is None
}

impl Vehicle {
    /// A passenger car named `name`: the default box, 200 m/s top speed, 10 m/s²
    /// acceleration and deceleration, and the axles of a car.
    pub fn new_car(name: String) -> (r: Vehicle)
        ensures
            r.name == Value::<String>::Literal(name),
            r.vehicle_category == VehicleCategory::Car,
            is_bare(r),
            is_real_literal(r.bounding_box.dimensions.width, "2.0"@),
            is_real_literal(r.bounding_box.dimensions.length, "4.5"@),
            is_real_literal(r.bounding_box.dimensions.height, "1.8"@),
            is_real_literal(r.bounding_box.center.x, "1.4"@),
            is_real_literal(r.bounding_box.center.y, "0.0"@),
            is_real_literal(r.bounding_box.center.z, "0.9"@),
            is_performance(r.performance, "200.0"@, "10.0"@, "10.0"@),
            r.axles.front_axle matches Some(f) && is_axle(f, "0.5"@, "0.6"@, "1.8"@, "2.8"@, "0.3"@),
            is_axle(r.axles.rear_axle, "0.0"@, "0.6"@, "1.8"@, "0.0"@, "0.3"@),
            r.axles.additional_axles@.len() == 0,
    {
        Vehicle {
            name: Value::Literal(name),
            vehicle_category: VehicleCategory::Car,
            role: None,
            mass: None,
            model3d: None,
            parameter_declarations: None,
            bounding_box: BoundingBox::default(),
            performance: Performance {
                max_speed: real_literal("200.0"),
                max_acceleration: real_literal("10.0"),
                max_acceleration_rate: None,
                max_deceleration: real_literal("10.0"),
                max_deceleration_rate: None,
            },
            axles: Axles::car(),
            properties: None,
            trailer_hitch: None,
            trailer_coupler: None,
            trailer: None,
        }
    }

    /// A truck named `name`: the default center with a truck's dimensions, 120 m/s
    /// top speed, 3 m/s² acceleration, 8 m/s² deceleration, and three axles.
    pub fn new_truck(name: String) -> (r: Vehicle)
        ensures
            r.name == Value::<String>::Literal(name),
            r.vehicle_category == VehicleCategory::Truck,
            is_bare(r),
            is_real_literal(r.bounding_box.dimensions.width, "2.5"@),
            is_real_literal(r.bounding_box.dimensions.length, "12.0"@),
            is_real_literal(r.bounding_box.dimensions.height, "3.5"@),
            is_real_literal(r.bounding_box.center.x, "1.4"@),
            is_real_literal(r.bounding_box.center.y, "0.0"@),
            is_real_literal(r.bounding_box.center.z, "0.9"@),
            is_performance(r.performance, "120.0"@, "3.0"@, "8.0"@),
            r.axles.front_axle matches Some(f) && is_axle(f, "0.6"@, "1.0"@, "2.0"@, "5.0"@, "0.5"@),
            is_axle(r.axles.rear_axle, "0.0"@, "1.0"@, "2.0"@, "0.0"@, "0.5"@),
            r.axles.additional_axles@.len() == 1,
            is_axle(r.axles.additional_axles@[0], "0.0"@, "1.0"@, "2.0"@, "-1.4"@, "0.5"@),
    {
        Vehicle {
            name: Value::Literal(name),
            vehicle_category: VehicleCategory::Truck,
            role: None,
            mass: None,
            model3d: None,
            parameter_declarations: None,
            bounding_box: BoundingBox { center: Center::default(), dimensions: Dimensions::truck_default() },
            performance: Performance {
                max_speed: real_literal("120.0"),
                max_acceleration: real_literal("3.0"),
                max_acceleration_rate: None,
                max_deceleration: real_literal("8.0"),
                max_deceleration_rate: None,
            },
            axles: Axles::truck(),
            properties: None,
            trailer_hitch: None,
            trailer_coupler: None,
            trailer: None,
        }
    }

    /// A motorcycle named `name`: the default center with a motorcycle's dimensions,
    /// 180 m/s top speed, 8 m/s² acceleration, 12 m/s² deceleration, and two axles.
    pub fn new_motorcycle(name: String) -> (r: Vehicle)
        ensures
            r.name == Value::<String>::Literal(name),
            r.vehicle_category == VehicleCategory::Motorbike,
            is_bare(r),
            is_real_literal(r.bounding_box.dimensions.width, "0.8"@),
            is_real_literal(r.bounding_box.dimensions.length, "2.2"@),
            is_real_literal(r.bounding_box.dimensions.height, "1.5"@),
            is_real_literal(r.bounding_box.center.x, "1.4"@),
            is_real_literal(r.bounding_box.center.y, "0.0"@),
            is_real_literal(r.bounding_box.center.z, "0.9"@),
            is_performance(r.performance, "180.0"@, "8.0"@, "12.0"@),
            r.axles.front_axle matches Some(f) && is_axle(f, "0.7"@, "0.6"@, "0.1"@, "1.5"@, "0.3"@),
            is_axle(r.axles.rear_axle, "0.0"@, "0.6"@, "0.1"@, "0.0"@, "0.3"@),
            r.axles.additional_axles@.len() == 0,
    {
        Vehicle {
            name: Value::Literal(name),
            vehicle_category: VehicleCategory::Motorbike,
            role: None,
            mass: None,
            model3d: None,
            parameter_declarations: None,
            bounding_box: BoundingBox { center: Center::default(), dimensions: Dimensions::motorcycle() },
            performance: Performance {
                max_speed: real_literal("180.0"),
                max_acceleration: real_literal("8.0"),
                max_acceleration_rate: None,
                max_deceleration: real_literal("12.0"),
                max_deceleration_rate: None,
            },
            axles: Axles::motorcycle(),
            properties: None,
            trailer_hitch: None,
            trailer_coupler: None,
            trailer: None,
        }
    }

    /// The number of axles of this vehicle.
    pub fn axle_count(&self) -> (n: usize)
        requires
            self.axles.additional_axles@.len() < usize::MAX - 1,
        ensures
            n == self.axles.count(),
    {
        self.axles.axle_count()
    }
}

impl Default for Vehicle {
    /// A passenger car named `DefaultVehicle`, as [`Vehicle::new_car`] builds it.
    fn default() -> (r: Vehicle)
        ensures
            is_str_literal(r.name, "DefaultVehicle"@),
            r.vehicle_category == VehicleCategory::Car,
            is_bare(r),
            is_real_literal(r.bounding_box.dimensions.width, "2.0"@),
            is_real_literal(r.bounding_box.dimensions.length, "4.5"@),
            is_real_literal(r.bounding_box.dimensions.height, "1.8"@),
            is_real_literal(r.bounding_box.center.x, "1.4"@),
            is_real_literal(r.bounding_box.center.y, "0.0"@),
            is_real_literal(r.bounding_box.center.z, "0.9"@),
            is_performance(r.performance, "200.0"@, "10.0"@, "10.0"@),
            r.axles.front_axle matches Some(f) && is_axle(f, "0.5"@, "0.6"@, "1.8"@, "2.8"@, "0.3"@),
            is_axle(r.axles.rear_axle, "0.0"@, "0.6"@, "1.8"@, "0.0"@, "0.3"@),
            r.axles.additional_axles@.len() == 0,
    {
        Vehicle {
            name: Value::Literal("DefaultVehicle".to_owned()),
            vehicle_category: VehicleCategory::Car,
            role: None,
            mass: None,
            model3d: None,
            parameter_declarations: None,
            bounding_box: BoundingBox::default(),
            performance: Performance {
                max_speed: real_literal("200.0"),
                max_acceleration: real_literal("10.0"),
                max_acceleration_rate: None,
                max_deceleration: real_literal("10.0"),
                max_deceleration_rate: None,
            },
            axles: Axles::default(),
            properties: None,
            trailer_hitch: None,
            trailer_coupler: None,
            trailer: None,
        }
    }
}

} // verus!
