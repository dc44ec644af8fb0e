use bevy_oxr::xr_utils::valve_index_controller_profile_constants::{hand, index_controller, left_a_button, left_hand, user};

#[test]
fn left_a_click_test() {
    let test_value = "/interaction_profiles/valve/index_controller/user/hand/left/input/a/click";
    assert_eq!(left_a_button().CLICK, test_value);
}

#[test]
fn left_hand_test() {
    let test_value = "/interaction_profiles/valve/index_controller/user/hand/left/input/a/click";
    assert_eq!(left_hand().INPUT.A.CLICK, test_value);
}

#[test]
fn hand_test() {
    let test_value = "/interaction_profiles/valve/index_controller/user/hand/left/input/a/click";
    assert_eq!(hand().LEFT.INPUT.A.CLICK, test_value);
}

#[test]
fn user_test() {
    let test_value = "/interaction_profiles/valve/index_controller/user/hand/left/input/a/click";
    assert_eq!(user().HAND.LEFT.INPUT.A.CLICK, test_value);
}

#[test]
fn index_controller_test() {
    let test_value = "/interaction_profiles/valve/index_controller/user/hand/left/input/a/click";
    assert_eq!(index_controller().USER.HAND.LEFT.INPUT.A.CLICK, test_value);
}

#[test]
fn index_controller_left_trigger_click_test() {
    let test_value = "/interaction_profiles/valve/index_controller/user/hand/left/input/trigger/click";
    assert_eq!(index_controller().USER.HAND.LEFT.INPUT.TRIGGER.CLICK, test_value);
}

#[test]
fn index_controller_right_trigger_click_test() {
    let test_value = "/interaction_profiles/valve/index_controller/user/hand/right/input/trigger/click";
    assert_eq!(index_controller().USER.HAND.RIGHT.INPUT.TRIGGER.CLICK, test_value);
}

#[test]
fn trigger_touch_reads_the_trigger_value_path() {
    let p = index_controller();
    assert_eq!(
        p.USER.HAND.LEFT.INPUT.TRIGGER.TOUCH,
        "/interaction_profiles/valve/index_controller/user/hand/left/input/trigger/value"
    );
    assert_eq!(
        p.USER.HAND.RIGHT.INPUT.TRIGGER.TOUCH,
        "/interaction_profiles/valve/index_controller/user/hand/right/input/trigger/value"
    );
}

#[test]
fn right_hand_paths_are_under_the_right_hand() {
    let p = index_controller();
    assert_eq!(
        p.USER.HAND.RIGHT.INPUT.THUMSTICK.X,
        "/interaction_profiles/valve/index_controller/user/hand/right/input/thumbstick/x"
    );
    assert_eq!(
        p.USER.HAND.RIGHT.INPUT.AIM.POSE,
        "/interaction_profiles/valve/index_controller/user/hand/right/input/aim/pose"
    );
    assert_eq!(
        p.USER.HAND.LEFT.INPUT.SQUEEZE.FORCE,
        "/interaction_profiles/valve/index_controller/user/hand/left/input/squeeze/force"
    );
}
