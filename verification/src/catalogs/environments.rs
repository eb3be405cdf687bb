//! Environments as catalogs hold them, and their resolution into scenario
//! environments.
use vstd::prelude::*;
use crate::basic::{
    is_real_literal, is_str_literal, literal_of, name_resolution, real_literal, resolve_parameter,
    resolved_name, settled_as, settled_opt_as, text_of, Boolean, Double, OSString,
    ParameterDeclarations, Value,
};
use crate::catalogs::entities::{CatalogEntity, ParameterDefinition};
use crate::duplicate::Duplicate;
use crate::entities::vehicle::Properties;
use crate::enums::{CloudState, FractionalCloudCover, PrecipitationType, Wetness};
use crate::environment::{
    DomeImage, Environment, Fog, Precipitation, RoadCondition, Sun, TimeOfDay, Weather, Wind,
};
use crate::error::{Error, ErrorView};
use crate::geometry::{BoundingBox, Center, Dimensions};
use crate::params::ParameterMap;

verus! {

/// An environment of a catalog.
#[derive(Debug, Clone, PartialEq)]
pub struct CatalogEnvironment {
    pub name: String,
    pub parameter_declarations: Option<ParameterDeclarations>,
    pub time_of_day: Option<CatalogTimeOfDay>,
    pub weather: Option<CatalogWeather>,
    pub road_condition: Option<CatalogRoadCondition>,
}

/// The time of day of a catalog environment.
#[derive(Debug, Clone, PartialEq)]
pub struct CatalogTimeOfDay {
    pub animation: Boolean,
    pub date_time: OSString,
}

/// The weather of a catalog environment.
#[derive(Debug, Clone, PartialEq)]
pub struct CatalogWeather {
    pub cloud_state: Option<CloudState>,
    pub atmospheric_pressure: Option<Double>,
    pub temperature: Option<Double>,
    pub fractional_cloud_cover: Option<FractionalCloudCover>,
    pub sun: Option<CatalogSun>,
    pub fog: Option<CatalogFog>,
    pub precipitation: Option<CatalogPrecipitation>,
    pub wind: Option<Wind>,
    pub dome_image: Option<DomeImage>,
}

/// The sun of a catalog environment.
#[derive(Debug, Clone, PartialEq)]
pub struct CatalogSun {
    pub intensity: Option<Double>,
    pub azimuth: Double,
    pub elevation: Double,
    pub illuminance: Option<Double>,
}

/// The fog of a catalog environment.
#[derive(Debug, Clone, PartialEq)]
pub struct CatalogFog {
    pub visual_range: Double,
    pub bounding_box: Option<BoundingBox>,
}

/// The precipitation of a catalog environment, whose type may be a parameter.
#[derive(Debug, Clone, PartialEq)]
pub struct CatalogPrecipitation {
    pub precipitation_type: OSString,
    pub intensity: Option<Double>,
    pub precipitation_intensity: Option<Double>,
}

/// The road condition of a catalog environment.
#[derive(Debug, Clone, PartialEq)]
pub struct CatalogRoadCondition {
    pub friction_scale_factor: Double,
    pub wetness: Option<Wetness>,
    pub properties: Option<Properties>,
}

impl Default for CatalogTimeOfDay {
    /// Noon on 1 January 2021, not animated.
    fn default() -> (r: CatalogTimeOfDay)
        ensures
            r.animation == Value::<bool>::Literal(false),
            is_str_literal(r.date_time, "2021-01-01T12:00:00"@),
    {
        CatalogTimeOfDay {
            animation: Value::Literal(false),
            date_time: Value::Literal("2021-01-01T12:00:00".to_owned()),
        }
    }
}

impl Default for CatalogWeather {
    /// Weather with nothing given.
    fn default() -> (r: CatalogWeather)
        ensures
            r.cloud_state is None,
            r.atmospheric_pressure is None,
            r.temperature is None,
            r.fractional_cloud_cover is None,
            r.sun is None,
            r.fog is None,
            r.precipitation is None,
            r.wind is None,
            r.dome_image is None,
    {
        CatalogWeather {
            cloud_state: None,
            atmospheric_pressure: None,
            temperature: None,
            fractional_cloud_cover: None,
            sun: None,
            fog: None,
            precipitation: None,
            wind: None,
            dome_image: None,
        }
    }
}

impl Default for CatalogFog {
    /// Clear air: 100 km of visual range, everywhere.
    fn default() -> (r: CatalogFog)
        ensures
            is_real_literal(r.visual_range, "100000.0"@),
            r.bounding_box is None,
    {
        CatalogFog { visual_range: real_literal("100000.0"), bounding_box: None }
    }
}

/// Whether `w` has the sun, fog and precipitation of the weather presets: a sun of
/// intensity `sun_intensity` at azimuth `0.0` and elevation `1.571`, fog of visual
/// range `visual_range`, and precipitation of type `kind`.
pub open spec fn is_preset(w: CatalogWeather, sun_intensity: Seq<char>, visual_range: Seq<char>, kind: Seq<char>) -> bool {
    &&& w.atmospheric_pressure is None
    &&& w.temperature is None
    &&& w.fractional_cloud_cover is None
    &&& w.sun matches Some(s) && (s.intensity matches Some(i) && is_real_literal(i, sun_intensity))
        && is_real_literal(s.azimuth, "0.0"@) && is_real_literal(s.elevation, "1.571"@) && s.illuminance is None
    &&& w.fog matches Some(f) && is_real_literal(f.visual_range, visual_range) && f.bounding_box is None
    &&& w.precipitation matches Some(p) && is_str_literal(p.precipitation_type, kind)
        && p.precipitation_intensity is None
    &&& w.wind is None
    &&& w.dome_image is None
}

impl CatalogWeather {
    /// The weather of cloud state `cloud_state`: full sun, clear air, no precipitation.
    pub fn new(cloud_state: CloudState) -> (r: CatalogWeather)
        ensures
            r.cloud_state == Some(cloud_state),
            is_preset(r, "1.0"@, "100000.0"@, "dry"@),
            r.precipitation matches Some(p) && (p.intensity matches Some(i) && is_real_literal(i, "0.0"@)),
    {
        CatalogWeather {
            cloud_state: Some(cloud_state),
            atmospheric_pressure: None,
            temperature: None,
            fractional_cloud_cover: None,
            sun: Some(CatalogSun {
                intensity: Some(real_literal("1.0")),
                azimuth: real_literal("0.0"),
                elevation: real_literal("1.571"),
                illuminance: None,
            }),
            fog: Some(CatalogFog::default()),
            precipitation: Some(CatalogPrecipitation {
                precipitation_type: Value::Literal("dry".to_owned()),
                intensity: Some(real_literal("0.0")),
                precipitation_intensity: None,
            }),
            wind: None,
            dome_image: None,
        }
    }

    /// Sunny weather: no clouds, full sun, clear air, no precipitation.
    pub fn sunny() -> (r: CatalogWeather)
        ensures
            r.cloud_state == Some(CloudState::Free),
            is_preset(r, "1.0"@, "100000.0"@, "dry"@),
            r.precipitation matches Some(p) && (p.intensity matches Some(i) && is_real_literal(i, "0.0"@)),
    {
        CatalogWeather {
            cloud_state: Some(CloudState::Free),
            atmospheric_pressure: None,
            temperature: None,
            fractional_cloud_cover: None,
            sun: Some(CatalogSun {
                intensity: Some(real_literal("1.0")),
                azimuth: real_literal("0.0"),
                elevation: real_literal("1.571"),
                illuminance: None,
            }),
            fog: Some(CatalogFog { visual_range: real_literal("100000.0"), bounding_box: None }),
            precipitation: Some(CatalogPrecipitation {
                precipitation_type: Value::Literal("dry".to_owned()),
                intensity: Some(real_literal("0.0")),
                precipitation_intensity: None,
            }),
            wind: None,
            dome_image: None,
        }
    }

    /// Rainy weather: rain clouds, dim sun, 5 km of visual range, rain of intensity
    /// `intensity`.
    pub fn rainy(intensity: Double) -> (r: CatalogWeather)
        ensures
            r.cloud_state == Some(CloudState::Rainy),
            is_preset(r, "0.3"@, "5000.0"@, "rain"@),
            r.precipitation matches Some(p) && p.intensity == Some(intensity),
    {
        CatalogWeather {
            cloud_state: Some(CloudState::Rainy),
            atmospheric_pressure: None,
            temperature: None,
            fractional_cloud_cover: None,
            sun: Some(CatalogSun {
                intensity: Some(real_literal("0.3")),
                azimuth: real_literal("0.0"),
                elevation: real_literal("1.571"),
                illuminance: None,
            }),
            fog: Some(CatalogFog { visual_range: real_literal("5000.0"), bounding_box: None }),
            precipitation: Some(CatalogPrecipitation {
                precipitation_type: Value::Literal("rain".to_owned()),
                intensity: Some(intensity),
                precipitation_intensity: None,
            }),
            wind: None,
            dome_image: None,
        }
    }
}

impl CatalogTimeOfDay {
    /// The time `date_time`, not animated.
    pub fn new(date_time: OSString) -> (r: CatalogTimeOfDay)
        ensures
            r.animation == Value::<bool>::Literal(false),
            r.date_time == date_time,
    {
        CatalogTimeOfDay { animation: Value::Literal(false), date_time }
    }

    /// The time `date_time`, animated as `animation` says.
    pub fn with_animation(date_time: OSString, animation: Boolean) -> (r: CatalogTimeOfDay)
        ensures
            r.animation == animation,
            r.date_time == date_time,
    {
        CatalogTimeOfDay { animation, date_time }
    }
}

/// Whether the time of day `t` resolves under `params`.
pub open spec fn time_of_day_resolvable(t: CatalogTimeOfDay, params: ParameterMap) -> bool {
    t.animation.resolvable(params) && text_of(t.date_time, params) is Some
}

/// Whether `out` is the time of day `t` resolved under `params`.
pub open spec fn time_of_day_resolved_as(t: CatalogTimeOfDay, params: ParameterMap, out: TimeOfDay) -> bool {
    literal_of(out.animation, t.animation, params) && text_of(t.date_time, params) == Some(out.date_time@)
}

/// Whether resolving the time of day `t` under `params` fails with `e`: its animation
/// flag first, then its date.
pub open spec fn time_of_day_fails(t: CatalogTimeOfDay, params: ParameterMap, e: Error) -> bool {
    ||| !t.animation.resolvable(params) && t.animation.resolves_to(params, Err(e))
    ||| t.animation.resolvable(params) && text_of(t.date_time, params) is None
        && t.date_time.resolves_to(params, Err(e))
}

/// The precipitation type that `s` names, if any.
pub open spec fn precipitation_kind(s: Seq<char>) -> Option<PrecipitationType> {
    PrecipitationType::from_wire_name(s)
}

/// Whether the precipitation `p` resolves under `params`.
pub open spec fn precipitation_resolvable(p: CatalogPrecipitation, params: ParameterMap) -> bool {
    text_of(p.precipitation_type, params) matches Some(s) && precipitation_kind(s) is Some
}

/// Whether `out` is the precipitation `p` resolved under `params`: its type read, its
/// intensity the current attribute if given, else the deprecated one, settled.
pub open spec fn precipitation_resolved_as(p: CatalogPrecipitation, params: ParameterMap, out: Precipitation) -> bool {
    &&& text_of(p.precipitation_type, params) matches Some(s) && precipitation_kind(s) == Some(out.precipitation_type)
    &&& out.intensity is None
    &&& match p.precipitation_intensity {
        Some(i) => out.precipitation_intensity matches Some(o) && settled_as(o, i, params),
        None => settled_opt_as(out.precipitation_intensity, p.intensity, params),
    }
}

/// Whether `out` is the box `b` with each of its six numbers settled under `params`.
pub open spec fn box_settled_as(out: BoundingBox, b: BoundingBox, params: ParameterMap) -> bool {
    &&& settled_as(out.center.x, b.center.x, params)
    &&& settled_as(out.center.y, b.center.y, params)
    &&& settled_as(out.center.z, b.center.z, params)
    &&& settled_as(out.dimensions.width, b.dimensions.width, params)
    &&& settled_as(out.dimensions.length, b.dimensions.length, params)
    &&& settled_as(out.dimensions.height, b.dimensions.height, params)
}

/// Whether resolving the precipitation `p` under `params` fails with `e`.
pub open spec fn precipitation_fails(p: CatalogPrecipitation, params: ParameterMap, e: Error) -> bool {
    match text_of(p.precipitation_type, params) {
        None => p.precipitation_type.resolves_to(params, Err(e)),
        Some(s) => precipitation_kind(s) is None && e@ == (ErrorView::InvalidValue {
            field: "precipitationType"@,
            value: s,
            expected: "must be one of: dry, rain, snow"@,
        }),
    }
}

/// Whether the weather `w` resolves under `params`.
pub open spec fn weather_resolvable(w: CatalogWeather, params: ParameterMap) -> bool {
    match w.precipitation {
        Some(p) => precipitation_resolvable(p, params),
        None => true,
    }
}

/// Whether `out` is the weather `w` resolved under `params`: its precipitation
/// resolved; every number in it settled, that is, replaced by the literal it resolves
/// to where it resolves and kept as it is where it does not; its states and the file of
/// its dome image carried over.
pub open spec fn weather_resolved_as(w: CatalogWeather, params: ParameterMap, out: Weather) -> bool {
    &&& out.cloud_state == w.cloud_state
    &&& settled_opt_as(out.atmospheric_pressure, w.atmospheric_pressure, params)
    &&& settled_opt_as(out.temperature, w.temperature, params)
    &&& out.fractional_cloud_cover == w.fractional_cloud_cover
    &&& match w.sun {
        Some(s) => out.sun matches Some(o) && settled_opt_as(o.intensity, s.intensity, params)
            && settled_as(o.azimuth, s.azimuth, params) && settled_as(o.elevation, s.elevation, params)
            && settled_opt_as(o.illuminance, s.illuminance, params),
        None => out.sun is None,
    }
    &&& match w.fog {
        Some(f) => out.fog matches Some(o) && settled_as(o.visual_range, f.visual_range, params)
            && match f.bounding_box {
                Some(b) => o.bounding_box matches Some(ob) && box_settled_as(ob, b, params),
                None => o.bounding_box is None,
            },
        None => out.fog is None,
    }
    &&& match w.precipitation {
        Some(p) => out.precipitation matches Some(o) && precipitation_resolved_as(p, params, o),
        None => out.precipitation is None,
    }
    &&& match w.wind {
        Some(x) => out.wind matches Some(o) && settled_as(o.direction, x.direction, params)
            && settled_as(o.speed, x.speed, params),
        None => out.wind is None,
    }
    &&& match w.dome_image {
        Some(d) => out.dome_image matches Some(o) && o.dome_file.same(&d.dome_file)
            && settled_opt_as(o.azimuth_offset, d.azimuth_offset, params),
        None => out.dome_image is None,
    }
}

/// Whether `out` is the road condition `c` resolved under `params`.
pub open spec fn road_condition_resolved_as(c: CatalogRoadCondition, params: ParameterMap, out: RoadCondition) -> bool {
    &&& literal_of(out.friction_scale_factor, c.friction_scale_factor, params)
    &&& out.wetness == c.wetness
    &&& out.properties.same(&c.properties)
}

impl CatalogEnvironment {
    /// The environment `name` with nothing given.
    pub fn new(name: String) -> (r: CatalogEnvironment)
        ensures
            r.name == name,
            r.parameter_declarations is None,
            r.time_of_day is None,
            r.weather is None,
            r.road_condition is None,
    {
        CatalogEnvironment {
            name,
            parameter_declarations: None,
            time_of_day: None,
            weather: None,
            road_condition: None,
        }
    }

    /// The environment `name` that declares `parameters`, with nothing else given.
    pub fn with_parameters(name: String, parameters: ParameterDeclarations) -> (r: CatalogEnvironment)
        ensures
            r.name == name,
            r.parameter_declarations == Some(parameters),
            r.time_of_day is None,
            r.weather is None,
            r.road_condition is None,
    {
        CatalogEnvironment {
            name,
            parameter_declarations: Some(parameters),
            time_of_day: None,
            weather: None,
            road_condition: None,
        }
    }

    /// Sets the time of day.
    pub fn set_time_of_day(&mut self, time_of_day: CatalogTimeOfDay)
        ensures
            *final(self) == (CatalogEnvironment { time_of_day: Some(time_of_day), ..*old(self) }),
    {
        self.time_of_day = Some(time_of_day);
    }

    /// Sets the weather.
    pub fn set_weather(&mut self, weather: CatalogWeather)
        ensures
            *final(self) == (CatalogEnvironment { weather: Some(weather), ..*old(self) }),
    {
        self.weather = Some(weather);
    }

    /// Sets the road condition.
    pub fn set_road_condition(&mut self, road_condition: CatalogRoadCondition)
        ensures
            *final(self) == (CatalogEnvironment { road_condition: Some(road_condition), ..*old(self) }),
    {
        self.road_condition = Some(road_condition);
    }

    /// Whether every part of this environment that resolves resolves under `params`:
    /// the time of day, the weather and the road condition.
    pub open spec fn parts_resolvable(self, params: ParameterMap) -> bool {
        &&& (self.time_of_day matches Some(t) ==> time_of_day_resolvable(t, params))
        &&& (self.weather matches Some(w) ==> weather_resolvable(w, params))
        &&& (self.road_condition matches Some(c) ==> c.friction_scale_factor.resolvable(params))
    }

    /// Whether resolving this environment's parts under `params` stops with `e`: at the
    /// time of day, then the weather, then the road condition.
    pub open spec fn parts_fail(self, params: ParameterMap, e: Error) -> bool {
        let tod_ok = self.time_of_day matches Some(t) ==> time_of_day_resolvable(t, params);
        let weather_ok = self.weather matches Some(w) ==> weather_resolvable(w, params);
        ||| self.time_of_day matches Some(t) && !time_of_day_resolvable(t, params) && time_of_day_fails(t, params, e)
        ||| tod_ok && (self.weather matches Some(w) && (w.precipitation matches Some(p)
            && !precipitation_resolvable(p, params) && precipitation_fails(p, params, e)))
        ||| tod_ok && weather_ok && (self.road_condition matches Some(c)
            && !c.friction_scale_factor.resolvable(params) && c.friction_scale_factor.resolves_to(params, Err(e)))
    }

    /// The time of day resolved under `parameters`.
    fn resolve_time_of_day(t: &CatalogTimeOfDay, parameters: &ParameterMap) -> (r: Result<TimeOfDay, Error>)
        ensures
            match r {
                Ok(out) => time_of_day_resolvable(*t, *parameters) && time_of_day_resolved_as(*t, *parameters, out),
                Err(e) => !time_of_day_resolvable(*t, *parameters) && time_of_day_fails(*t, *parameters, e),
            },
    {
        let animation = match t.animation.resolve_to_literal(parameters) {
            Ok(a) => a,
            Err(e) => return Err(e),
        };
        let resolved = t.date_time.resolve(parameters);
        proof {
            crate::basic::lemma_string_resolution(t.date_time, *parameters, resolved);
        }
        let date_time = match resolved {
            Ok(d) => d,
            Err(e) => return Err(e),
        };
        Ok(TimeOfDay { animation, date_time })
    }

    /// The precipitation resolved under `parameters`.
    fn resolve_precipitation(p: &CatalogPrecipitation, parameters: &ParameterMap) -> (r: Result<Precipitation, Error>)
        ensures
            match r {
                Ok(out) => precipitation_resolvable(*p, *parameters) && precipitation_resolved_as(*p, *parameters, out),
                Err(e) => !precipitation_resolvable(*p, *parameters) && precipitation_fails(*p, *parameters, e),
            },
    {
        let resolved = p.precipitation_type.resolve(parameters);
        proof {
            crate::basic::lemma_string_resolution(p.precipitation_type, *parameters, resolved);
        }
        let type_str = match resolved {
            Ok(s) => s,
            Err(e) => return Err(e),
        };
        let precipitation_type = match PrecipitationType::from_wire(type_str.as_str()) {
            Ok(k) => k,
            Err(_) => {
                return Err(Error::invalid_value(
                    "precipitationType",
                    type_str.as_str(),
                    "must be one of: dry, rain, snow",
                ));
            },
        };
        let precipitation_intensity = match &p.precipitation_intensity {
            Some(i) => Some(i.settle(parameters)),
            None => Value::settle_opt(&p.intensity, parameters),
        };
        Ok(Precipitation { precipitation_type, intensity: None, precipitation_intensity })
    }

    /// The box `b` with each of its six numbers settled under `parameters`.
    fn settle_box(b: &BoundingBox, parameters: &ParameterMap) -> (r: BoundingBox)
        ensures
            box_settled_as(r, *b, *parameters),
    {
        BoundingBox {
            center: Center {
                x: b.center.x.settle(parameters),
                y: b.center.y.settle(parameters),
                z: b.center.z.settle(parameters),
            },
            dimensions: Dimensions {
                width: b.dimensions.width.settle(parameters),
                length: b.dimensions.length.settle(parameters),
                height: b.dimensions.height.settle(parameters),
            },
        }
    }

    /// The weather resolved under `parameters`.
    fn resolve_weather(w: &CatalogWeather, parameters: &ParameterMap) -> (r: Result<Weather, Error>)
        ensures
            match r {
                Ok(out) => weather_resolvable(*w, *parameters) && weather_resolved_as(*w, *parameters, out),
                Err(e) => !weather_resolvable(*w, *parameters) && (w.precipitation matches Some(p)
                    && precipitation_fails(p, *parameters, e)),
            },
    {
        let precipitation = match &w.precipitation {
            Some(p) => match CatalogEnvironment::resolve_precipitation(p, parameters) {
                Ok(o) => Some(o),
                Err(e) => return Err(e),
            },
            None => None,
        };
        let sun = match &w.sun {
            Some(s) => Some(Sun {
                intensity: Value::settle_opt(&s.intensity, parameters),
                azimuth: s.azimuth.settle(parameters),
                elevation: s.elevation.settle(parameters),
                illuminance: Value::settle_opt(&s.illuminance, parameters),
            }),
            None => None,
        };
        let fog = match &w.fog {
            Some(f) => Some(Fog {
                visual_range: f.visual_range.settle(parameters),
                bounding_box: match &f.bounding_box {
                    Some(b) => Some(CatalogEnvironment::settle_box(b, parameters)),
                    None => None,
                },
            }),
            None => None,
        };
        let wind = match &w.wind {
            Some(x) => Some(Wind { direction: x.direction.settle(parameters), speed: x.speed.settle(parameters) }),
            None => None,
        };
        let dome_image = match &w.dome_image {
            Some(d) => Some(DomeImage {
                dome_file: d.dome_file.copied(),
                azimuth_offset: Value::settle_opt(&d.azimuth_offset, parameters),
            }),
            None => None,
        };
        Ok(Weather {
            cloud_state: w.cloud_state,
            atmospheric_pressure: Value::settle_opt(&w.atmospheric_pressure, parameters),
            temperature: Value::settle_opt(&w.temperature, parameters),
            fractional_cloud_cover: w.fractional_cloud_cover,
            sun,
            fog,
            precipitation,
            wind,
            dome_image,
        })
    }

    /// The scenario environment that this entry stands for under `parameters`, with
    /// every parameterizable value resolved: its time of day, the type of its
    /// precipitation and its friction must resolve; every number of its weather is
    /// replaced by the literal it resolves to, and kept as it is where it does not
    /// resolve (an unassigned intensity fails nothing); its name is resolved last. The
    /// first part that fails, in that order, gives the error.
    pub fn resolve_environment(&self, parameters: &ParameterMap) -> (r: Result<Environment, Error>)
        ensures
            match r {
                Ok(env) => {
                    &&& self.parts_resolvable(*parameters)
                    &&& env.name matches Value::Literal(n) && resolved_name(self.name@, *parameters) == Some(n@)
                    &&& env.parameter_declarations.same(&self.parameter_declarations)
                    &&& match self.time_of_day {
                        Some(t) => env.time_of_day matches Some(o) && time_of_day_resolved_as(t, *parameters, o),
                        None => env.time_of_day is None,
                    }
                    &&& match self.weather {
                        Some(w) => env.weather matches Some(o) && weather_resolved_as(w, *parameters, o),
                        None => env.weather is None,
                    }
                    &&& match self.road_condition {
                        Some(c) => env.road_condition matches Some(o) && road_condition_resolved_as(c, *parameters, o),
                        None => env.road_condition is None,
                    }
                },
                Err(e) => {
                    ||| self.parts_fail(*parameters, e)
                    ||| self.parts_resolvable(*parameters) && name_resolution(self.name@, *parameters, Err(e))
                },
            },
    {
        let time_of_day = match &self.time_of_day {
            Some(t) => match CatalogEnvironment::resolve_time_of_day(t, parameters) {
                Ok(o) => Some(o),
                Err(e) => return Err(e),
            },
            None => None,
        };
        let weather = match &self.weather {
            Some(w) => match CatalogEnvironment::resolve_weather(w, parameters) {
                Ok(o) => Some(o),
                Err(e) => return Err(e),
            },
            None => None,
        };
        let road_condition = match &self.road_condition {
            Some(c) => {
                let friction_scale_factor = match c.friction_scale_factor.resolve_to_literal(parameters) {
                    Ok(f) => f,
                    Err(e) => return Err(e),
                };
                Some(RoadCondition {
                    friction_scale_factor,
                    wetness: c.wetness,
                    properties: c.properties.copied(),
                })
            },
            None => None,
        };
        let name = match resolve_parameter(self.name.as_str(), parameters) {
            Ok(n) => n,
            Err(e) => return Err(e),
        };
        Ok(Environment {
            name: Value::Literal(name),
            parameter_declarations: self.parameter_declarations.copied(),
            time_of_day,
            weather,
            road_condition,
        })
    }
}

impl CatalogEntity for CatalogEnvironment {
    type ResolvedType = Environment;

    /// The scenario environment that this entry stands for under `parameters`, as
    /// [`CatalogEnvironment::resolve_environment`] gives it.
    fn into_scenario_entity(self, parameters: ParameterMap) -> (r: Result<Environment, Error>)
        ensures
            match r {
                Ok(env) => {
                    &&& self.parts_resolvable(parameters)
                    &&& env.name matches Value::Literal(n) && resolved_name(self.name@, parameters) == Some(n@)
                    &&& env.parameter_declarations.same(&self.parameter_declarations)
                    &&& match self.time_of_day {
                        Some(t) => env.time_of_day matches Some(o) && time_of_day_resolved_as(t, parameters, o),
                        None => env.time_of_day is None,
                    }
                    &&& match self.weather {
                        Some(w) => env.weather matches Some(o) && weather_resolved_as(w, parameters, o),
                        None => env.weather is None,
                    }
                    &&& match self.road_condition {
                        Some(c) => env.road_condition matches Some(o) && road_condition_resolved_as(c, parameters, o),
                        None => env.road_condition is None,
                    }
                },
                Err(e) => {
                    ||| self.parts_fail(parameters, e)
                    ||| self.parts_resolvable(parameters) && name_resolution(self.name@, parameters, Err(e))
                },
            },
    {
        self.resolve_environment(&parameters)
    }

    /// The parameters that environment entries understand.
    fn parameter_schema() -> (r: Vec<ParameterDefinition>)
        ensures
            r@.len() == 3,
            r@[0].describes("TimeOfDay"@, "String"@, "12:00:00"@, "Time of day in HH:MM:SS format"@),
            r@[1].describes("WeatherCondition"@, "String"@, "dry"@, "Weather condition (dry, wet, snow, fog)"@),
            r@[2].describes("RoadCondition"@, "String"@, "dry"@, "Road surface condition (dry, wet, snow, ice)"@),
    {
        vec![
            ParameterDefinition::new("TimeOfDay", "String", "12:00:00", "Time of day in HH:MM:SS format"),
            ParameterDefinition::new("WeatherCondition", "String", "dry", "Weather condition (dry, wet, snow, fog)"),
            ParameterDefinition::new("RoadCondition", "String", "dry", "Road surface condition (dry, wet, snow, ice)"),
        ]
    }

    /// The name of this entry.
    fn entity_name(&self) -> (r: &str)
        ensures
            r@ == self.name@,
    {
        self.name.as_str()
    }
}

/// The precipitation types that a catalog environment may name: `dry`, `rain` and
/// `snow` resolve to dry, rain and snow; any other text makes the precipitation, and so
/// the environment, fail to resolve.
pub proof fn lemma_precipitation_type_mapping(p: CatalogPrecipitation, params: ParameterMap, out: Precipitation)
    ensures
        text_of(p.precipitation_type, params) == Some("dry"@) ==> precipitation_resolvable(p, params)
            && (precipitation_resolved_as(p, params, out) ==> out.precipitation_type == PrecipitationType::Dry),
        text_of(p.precipitation_type, params) == Some("rain"@) ==> precipitation_resolvable(p, params)
            && (precipitation_resolved_as(p, params, out) ==> out.precipitation_type == PrecipitationType::Rain),
        text_of(p.precipitation_type, params) == Some("snow"@) ==> precipitation_resolvable(p, params)
            && (precipitation_resolved_as(p, params, out) ==> out.precipitation_type == PrecipitationType::Snow),
        text_of(p.precipitation_type, params) is Some && text_of(p.precipitation_type, params)->0 != "dry"@
            && text_of(p.precipitation_type, params)->0 != "rain"@
            && text_of(p.precipitation_type, params)->0 != "snow"@ ==> !precipitation_resolvable(p, params),
{
    PrecipitationType::lemma_written_names();
    if text_of(p.precipitation_type, params) is Some {
        PrecipitationType::lemma_parsed_text_is_wire_name(text_of(p.precipitation_type, params)->0);
    }
}

} // verus!
