//! The axles of vehicles.
use vstd::prelude::*;
use crate::basic::{is_real_literal, real_literal, Double};

verus! {

/// One axle of a vehicle.
#[derive(Debug, Clone, PartialEq)]
pub struct Axle {
    pub max_steering: Double,
    pub wheel_diameter: Double,
    pub track_width: Double,
    pub position_x: Double,
    pub position_z: Double,
}

/// The axles of a vehicle: an optional front axle, the rear axle and any further axles.
#[derive(Debug, Clone, PartialEq)]
pub struct Axles {
    pub front_axle: Option<Axle>,
    pub rear_axle: Axle,
    pub additional_axles: Vec<Axle>,
}

/// Whether `a` is the axle with the five values written as given.
pub open spec fn is_axle(
    a: Axle,
    max_steering: Seq<char>,
    wheel_diameter: Seq<char>,
    track_width: Seq<char>,
    position_x: Seq<char>,
    position_z: Seq<char>,
) -> bool {
    &&& is_real_literal(a.max_steering, max_steering)
    &&& is_real_literal(a.wheel_diameter, wheel_diameter)
    &&& is_real_literal(a.track_width, track_width)
    &&& is_real_literal(a.position_x, position_x)
    &&& is_real_literal(a.position_z, position_z)
}

impl Axle {
    /// The axle with the five values written as given.
    pub fn new(
        max_steering: &str,
        wheel_diameter: &str,
        track_width: &str,
        position_x: &str,
        position_z: &str,
    ) -> (r: Axle)
        ensures
            is_axle(r, max_steering@, wheel_diameter@, track_width@, position_x@, position_z@),
    {
        Axle {
            max_steering: real_literal(max_steering),
            wheel_diameter: real_literal(wheel_diameter),
            track_width: real_literal(track_width),
            position_x: real_literal(position_x),
            position_z: real_literal(position_z),
        }
    }
}

impl Axles {
    /// The axles of a passenger car: a steered front axle 2.8 m ahead of the rear one.
    pub fn car() -> (r: Axles)
        ensures
            r.front_axle matches Some(f) && is_axle(f, "0.5"@, "0.6"@, "1.8"@, "2.8"@, "0.3"@),
            is_axle(r.rear_axle, "0.0"@, "0.6"@, "1.8"@, "0.0"@, "0.3"@),
            r.additional_axles@.len() == 0,
    {
        Axles {
            front_axle: Some(Axle::new("0.5", "0.6", "1.8", "2.8", "0.3")),
            rear_axle: Axle::new("0.0", "0.6", "1.8", "0.0", "0.3"),
            additional_axles: Vec::new(),
        }
    }

    /// The axles of a truck: a steered front axle, the rear axle and one further
    /// axle behind it.
    pub fn truck() -> (r: Axles)
        ensures
            r.front_axle matches Some(f) && is_axle(f, "0.6"@, "1.0"@, "2.0"@, "5.0"@, "0.5"@),
            is_axle(r.rear_axle, "0.0"@, "1.0"@, "2.0"@, "0.0"@, "0.5"@),
            r.additional_axles@.len() == 1,
            is_axle(r.additional_axles@[0], "0.0"@, "1.0"@, "2.0"@, "-1.4"@, "0.5"@),
    {
        let mut additional_axles: Vec<Axle> = Vec::new();
        additional_axles.push(Axle::new("0.0", "1.0", "2.0", "-1.4", "0.5"));
        Axles {
            front_axle: Some(Axle::new("0.6", "1.0", "2.0", "5.0", "0.5")),
            rear_axle: Axle::new("0.0", "1.0", "2.0", "0.0", "0.5"),
            additional_axles,
        }
    }

    /// The axles of a motorcycle: a steered front wheel 1.5 m ahead of the rear one.
    pub fn motorcycle() -> (r: Axles)
        ensures
            r.front_axle matches Some(f) && is_axle(f, "0.7"@, "0.6"@, "0.1"@, "1.5"@, "0.3"@),
            is_axle(r.rear_axle, "0.0"@, "0.6"@, "0.1"@, "0.0"@, "0.3"@),
            r.additional_axles@.len() == 0,
    {
        Axles {
            front_axle: Some(Axle::new("0.7", "0.6", "0.1", "1.5", "0.3")),
            rear_axle: Axle::new("0.0", "0.6", "0.1", "0.0", "0.3"),
            additional_axles: Vec::new(),
        }
    }

    /// The number of axles: the front axle if present, the rear axle, and the further
    /// axles.
    pub open spec fn count(self) -> int {
        (if self.front_axle is Some { 1int } else { 0int }) + 1 + self.additional_axles@.len()
    }

    /// The number of axles: the front axle if present, the rear axle, and the further
    /// axles.
    pub fn axle_count(&self) -> (n: usize)
        requires
            self.additional_axles@.len() < usize::MAX - 1,
        ensures
            n == self.count(),
    {
        let front: usize = if self.front_axle.is_some() { 1 } else { 0 };
        front + 1 + self.additional_axles.len()
    }
}

impl Default for Axles {
    /// The axles of a passenger car.
    fn default() -> (r: Axles)
        ensures
            r.front_axle matches Some(f) && is_axle(f, "0.5"@, "0.6"@, "1.8"@, "2.8"@, "0.3"@),
            is_axle(r.rear_axle, "0.0"@, "0.6"@, "1.8"@, "0.0"@, "0.3"@),
            r.additional_axles@.len() == 0,
    {
        Axles::car()
    }
}

} // verus!
