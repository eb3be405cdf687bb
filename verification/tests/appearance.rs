use openscenario::actions::appearance::{AppearanceAction, SensorReferenceSet, VisibilityAction};

#[test]
fn test_visibility_action_default_all_true() {
    let va = VisibilityAction::default();
    assert_eq!(va.graphics.as_literal(), Some(&true));
    assert_eq!(va.sensors.as_literal(), Some(&true));
    assert_eq!(va.traffic.as_literal(), Some(&true));
    assert!(va.sensor_reference_set.is_none());
}

#[test]
fn test_appearance_action_default_is_empty() {
    let aa = AppearanceAction::default();
    assert!(aa.light_state_action.is_none());
    assert!(aa.animation_action.is_none());
}

#[test]
fn test_sensor_reference_set_default_empty_vec() {
    let srs = SensorReferenceSet::default();
    assert!(srs.sensor_references.is_empty());
}
