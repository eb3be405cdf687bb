//! The road network of a scenario.
use vstd::prelude::*;
use crate::actions::traffic::TrafficSignalController;
use crate::basic::{OSString, Value};
use crate::positions::Position;

verus! {

/// The road network: its logic and scene files, signal controllers and used area.
#[derive(Debug, Clone, PartialEq)]
pub struct RoadNetwork {
    pub logic_file: Option<LogicFile>,
    pub scene_graph_file: Option<SceneGraphFile>,
    pub traffic_signals: Option<TrafficSignals>,
    pub used_area: Option<UsedArea>,
}

/// The signal controllers of a road network.
#[derive(Debug, Clone, PartialEq)]
pub struct TrafficSignals {
    pub traffic_signal_controller: Vec<TrafficSignalController>,
}

/// The part of the road network that the scenario uses.
#[derive(Debug, Clone, PartialEq)]
pub struct UsedArea {
    pub position: Vec<Position>,
}

/// The file that describes the road network.
#[derive(Debug, Clone, PartialEq)]
pub struct LogicFile {
    pub filepath: OSString,
}

/// The file that shows the road network.
#[derive(Debug, Clone, PartialEq)]
pub struct SceneGraphFile {
    pub filepath: OSString,
}

impl Default for RoadNetwork {
    /// A road network with nothing given.
    fn default() -> (r: RoadNetwork)
        ensures
            r.logic_file is None,
            r.scene_graph_file is None,
            r.traffic_signals is None,
            r.used_area is None,
    {
        RoadNetwork { logic_file: None, scene_graph_file: None, traffic_signals: None, used_area: None }
    }
}

impl Default for TrafficSignals {
    /// No signal controllers.
    fn default() -> (r: TrafficSignals)
        ensures
            r.traffic_signal_controller@.len() == 0,
    {
        TrafficSignals { traffic_signal_controller: Vec::new() }
    }
}

impl Default for UsedArea {
    /// No positions.
    fn default() -> (r: UsedArea)
        ensures
            r.position@.len() == 0,
    {
        UsedArea { position: Vec::new() }
    }
}

impl RoadNetwork {
    /// The road network described by `logic_file`.
    pub fn new(logic_file: LogicFile) -> (r: RoadNetwork)
        ensures
            r == (RoadNetwork { logic_file: Some(logic_file), scene_graph_file: None, traffic_signals: None, used_area: None }),
    {
        RoadNetwork { logic_file: Some(logic_file), scene_graph_file: None, traffic_signals: None, used_area: None }
    }

    /// The road network described by the file at `filepath`.
    pub fn from_logic_file_path(filepath: String) -> (r: RoadNetwork)
        ensures
            r == (RoadNetwork {
                logic_file: Some(LogicFile { filepath: Value::Literal(filepath) }),
                scene_graph_file: None,
                traffic_signals: None,
                used_area: None,
            }),
    {
        RoadNetwork::new(LogicFile::new(filepath))
    }
}

impl LogicFile {
    /// The logic file at `filepath`.
    pub fn new(filepath: String) -> (r: LogicFile)
        ensures
            r == (LogicFile { filepath: Value::Literal(filepath) }),
    {
        LogicFile { filepath: Value::Literal(filepath) }
    }
}

impl SceneGraphFile {
    /// The scene graph file at `filepath`.
    pub fn new(filepath: String) -> (r: SceneGraphFile)
        ensures
            r == (SceneGraphFile { filepath: Value::Literal(filepath) }),
    {
        SceneGraphFile { filepath: Value::Literal(filepath) }
    }
}

} // verus!
