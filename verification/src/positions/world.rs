//! Positions in world coordinates and in geographic coordinates.
use vstd::prelude::*;
use crate::basic::{is_real_literal, real_literal, Double, Int, Real, Value};
use crate::positions::road::Orientation;

verus! {

/// A position in world coordinates with an optional orientation.
#[derive(Debug, Clone, PartialEq)]
pub struct WorldPosition {
    pub x: Double,
    pub y: Double,
    pub z: Option<Double>,
    pub h: Option<Double>,
    pub p: Option<Double>,
    pub r: Option<Double>,
}

/// A position in geographic coordinates.
#[derive(Debug, Clone, PartialEq)]
pub struct GeographicPosition {
    pub latitude: Option<Double>,
    pub longitude: Option<Double>,
    pub height: Option<Double>,
    pub latitude_deg: Option<Double>,
    pub longitude_deg: Option<Double>,
    pub altitude: Option<Double>,
    pub vertical_road_selection: Option<Int>,
    pub orientation: Option<Orientation>,
}

impl WorldPosition {
    /// The position `x`, `y`.
    pub fn new(x: Real, y: Real) -> (r: WorldPosition)
        ensures
            r == (WorldPosition {
                x: Value::Literal(x),
                y: Value::Literal(y),
                z: None,
                h: None,
                p: None,
                r: None,
            }),
    {
        WorldPosition { x: Value::Literal(x), y: Value::Literal(y), z: None, h: None, p: None, r: None }
    }

    /// The position `x`, `y`, `z`.
    pub fn with_z(x: Real, y: Real, z: Real) -> (r: WorldPosition)
        ensures
            r == (WorldPosition {
                x: Value::Literal(x),
                y: Value::Literal(y),
                z: Some(Value::Literal(z)),
                h: None,
                p: None,
                r: None,
            }),
    {
        WorldPosition {
            x: Value::Literal(x),
            y: Value::Literal(y),
            z: Some(Value::Literal(z)),
            h: None,
            p: None,
            r: None,
        }
    }

    /// The position `x`, `y`, `z` with heading `h`.
    pub fn with_orientation(x: Real, y: Real, z: Real, h: Real) -> (r: WorldPosition)
        ensures
            r == (WorldPosition {
                x: Value::Literal(x),
                y: Value::Literal(y),
                z: Some(Value::Literal(z)),
                h: Some(Value::Literal(h)),
                p: None,
                r: None,
            }),
    {
        WorldPosition {
            x: Value::Literal(x),
            y: Value::Literal(y),
            z: Some(Value::Literal(z)),
            h: Some(Value::Literal(h)),
            p: None,
            r: None,
        }
    }

    /// The position `x`, `y`, `z` with heading `h`, pitch `p` and roll `r`.
    pub fn with_full_orientation(x: Real, y: Real, z: Real, h: Real, p: Real, r: Real) -> (w: WorldPosition)
        ensures
            w == (WorldPosition {
                x: Value::Literal(x),
                y: Value::Literal(y),
                z: Some(Value::Literal(z)),
                h: Some(Value::Literal(h)),
                p: Some(Value::Literal(p)),
                r: Some(Value::Literal(r)),
            }),
    {
        WorldPosition {
            x: Value::Literal(x),
            y: Value::Literal(y),
            z: Some(Value::Literal(z)),
            h: Some(Value::Literal(h)),
            p: Some(Value::Literal(p)),
            r: Some(Value::Literal(r)),
        }
    }
}

impl GeographicPosition {
    /// The position at `latitude`, `longitude`, given in the deprecated attributes.
    pub fn new(latitude: Real, longitude: Real) -> (r: GeographicPosition)
        ensures
            r == (GeographicPosition {
                latitude: Some(Value::Literal(latitude)),
                longitude: Some(Value::Literal(longitude)),
                height: None,
                latitude_deg: None,
                longitude_deg: None,
                altitude: None,
                vertical_road_selection: None,
                orientation: None,
            }),
    {
        GeographicPosition {
            latitude: Some(Value::Literal(latitude)),
            longitude: Some(Value::Literal(longitude)),
            height: None,
            latitude_deg: None,
            longitude_deg: None,
            altitude: None,
            vertical_road_selection: None,
            orientation: None,
        }
    }

    /// The position at `latitude`, `longitude` and `height`.
    pub fn with_height(latitude: Real, longitude: Real, height: Real) -> (r: GeographicPosition)
        ensures
            r == (GeographicPosition {
                latitude: Some(Value::Literal(latitude)),
                longitude: Some(Value::Literal(longitude)),
                height: Some(Value::Literal(height)),
                latitude_deg: None,
                longitude_deg: None,
                altitude: None,
                vertical_road_selection: None,
                orientation: None,
            }),
    {
        GeographicPosition {
            latitude: Some(Value::Literal(latitude)),
            longitude: Some(Value::Literal(longitude)),
            height: Some(Value::Literal(height)),
            latitude_deg: None,
            longitude_deg: None,
            altitude: None,
            vertical_road_selection: None,
            orientation: None,
        }
    }

    /// This position with the orientation `orientation`.
    pub fn with_orientation(self, orientation: Orientation) -> (r: GeographicPosition)
        ensures
            r == (GeographicPosition { orientation: Some(orientation), ..self }),
    {
        let mut s = self;
        s.orientation = Some(orientation);
        s
    }

    /// The position at `latitude`, `longitude` and `height`, heading `heading`.
    pub fn at_coordinates(latitude: Real, longitude: Real, height: Real, heading: Real) -> (r: GeographicPosition)
        ensures
            r == (GeographicPosition {
                latitude: Some(Value::Literal(latitude)),
                longitude: Some(Value::Literal(longitude)),
                height: Some(Value::Literal(height)),
                latitude_deg: None,
                longitude_deg: None,
                altitude: None,
                vertical_road_selection: None,
                orientation: Some(Orientation {
                    h: Some(Value::Literal(heading)),
                    p: None,
                    r: None,
                    reference_context: None,
                }),
            }),
    {
        let orientation = Orientation {
            h: Some(Value::Literal(heading)),
            p: None,
            r: None,
            reference_context: None,
        };
        GeographicPosition::with_height(latitude, longitude, height).with_orientation(orientation)
    }
}

impl Default for GeographicPosition {
    /// The position at latitude `0.0`, longitude `0.0`.
    fn default() -> (r: GeographicPosition)
        ensures
            r.latitude matches Some(v) && is_real_literal(v, "0.0"@),
            r.longitude matches Some(v) && is_real_literal(v, "0.0"@),
            r.height is None,
            r.latitude_deg is None,
            r.longitude_deg is None,
            r.altitude is None,
            r.vertical_road_selection is None,
            r.orientation is None,
    {
        GeographicPosition {
            latitude: Some(real_literal("0.0")),
            longitude: Some(real_literal("0.0")),
            height: None,
            latitude_deg: None,
            longitude_deg: None,
            altitude: None,
            vertical_road_selection: None,
            orientation: None,
        }
    }
}

} // verus!
