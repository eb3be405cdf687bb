use openscenario::road::{LogicFile, RoadNetwork, SceneGraphFile};

#[test]
fn test_road_network_creation() {
    let logic_file = LogicFile::new("./road_networks/test.xodr".to_string());
    let road_network = RoadNetwork::new(logic_file);

    assert!(road_network.logic_file.is_some());
    assert_eq!(
        road_network.logic_file.unwrap().filepath.as_literal(),
        Some(&"./road_networks/test.xodr".to_string())
    );
}

#[test]
fn test_road_network_from_path() {
    let road_network = RoadNetwork::from_logic_file_path(
        "./road_networks/alks_road_different_curvatures.xodr".to_string(),
    );

    assert!(road_network.logic_file.is_some());
    assert_eq!(
        road_network.logic_file.unwrap().filepath.as_literal(),
        Some(&"./road_networks/alks_road_different_curvatures.xodr".to_string())
    );
}

#[test]
fn test_logic_file_creation() {
    let logic_file = LogicFile::new("test.xodr".to_string());
    assert_eq!(
        logic_file.filepath.as_literal(),
        Some(&"test.xodr".to_string())
    );
}

#[test]
fn test_scene_graph_file_creation() {
    let scene_file = SceneGraphFile::new("test.osgb".to_string());
    assert_eq!(
        scene_file.filepath.as_literal(),
        Some(&"test.osgb".to_string())
    );
}
