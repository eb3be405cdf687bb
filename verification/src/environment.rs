//! The environment of a scenario: time of day, weather and road conditions.
use vstd::prelude::*;
use crate::basic::{Boolean, Double, OSString, ParameterDeclarations};
use crate::entities::vehicle::{File, Properties};
use crate::enums::{CloudState, FractionalCloudCover, PrecipitationType, Wetness};
use crate::geometry::BoundingBox;

verus! {

/// The environment: its time of day, weather and road conditions.
#[derive(Debug, Clone, PartialEq)]
pub struct Environment {
    pub name: OSString,
    pub parameter_declarations: Option<ParameterDeclarations>,
    pub time_of_day: Option<TimeOfDay>,
    pub weather: Option<Weather>,
    pub road_condition: Option<RoadCondition>,
}

/// The time of day, and whether it advances while the scenario runs.
#[derive(Debug, Clone, PartialEq)]
pub struct TimeOfDay {
    pub animation: Boolean,
    pub date_time: String,
}

/// The weather.
#[derive(Debug, Clone, PartialEq)]
pub struct Weather {
    pub cloud_state: Option<CloudState>,
    pub atmospheric_pressure: Option<Double>,
    pub temperature: Option<Double>,
    pub fractional_cloud_cover: Option<FractionalCloudCover>,
    pub sun: Option<Sun>,
    pub fog: Option<Fog>,
    pub precipitation: Option<Precipitation>,
    pub wind: Option<Wind>,
    pub dome_image: Option<DomeImage>,
}

/// The sun: its position and brightness.
#[derive(Debug, Clone, PartialEq)]
pub struct Sun {
    pub intensity: Option<Double>,
    pub azimuth: Double,
    pub elevation: Double,
    pub illuminance: Option<Double>,
}

/// Fog: the distance one can see through it, and where it lies.
#[derive(Debug, Clone, PartialEq)]
pub struct Fog {
    pub visual_range: Double,
    pub bounding_box: Option<BoundingBox>,
}

/// Precipitation: its kind and intensity.
#[derive(Debug, Clone, PartialEq)]
pub struct Precipitation {
    pub precipitation_type: PrecipitationType,
    pub intensity: Option<Double>,
    pub precipitation_intensity: Option<Double>,
}

/// Wind: the direction it comes from and its speed.
#[derive(Debug, Clone, PartialEq)]
pub struct Wind {
    pub direction: Double,
    pub speed: Double,
}

/// An image of the sky dome.
#[derive(Debug, Clone, PartialEq)]
pub struct DomeImage {
    pub dome_file: File,
    pub azimuth_offset: Option<Double>,
}

/// The condition of the road surface.
#[derive(Debug, Clone, PartialEq)]
pub struct RoadCondition {
    pub friction_scale_factor: Double,
    pub wetness: Option<Wetness>,
    pub properties: Option<Properties>,
}

impl Default for Weather {
    /// Weather with nothing given.
    fn default() -> (r: Weather)
        ensures
            r.cloud_state is None,
            r.atmospheric_pressure is None,
            r.temperature is None,
            r.fractional_cloud_cover is None,
            r.sun is None,
            r.fog is None,
            r.precipitation is None,
            r.wind is None,
            r.dome_image is None,
    {
        Weather {
            cloud_state: None,
            atmospheric_pressure: None,
            temperature: None,
            fractional_cloud_cover: None,
            sun: None,
            fog: None,
            precipitation: None,
            wind: None,
            dome_image: None,
        }
    }
}

} // verus!
