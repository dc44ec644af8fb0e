use bevy_oxr::backend::{plan_actions, ActionDecl};
use bevy_oxr::xr_utils::actions::{action_setup_events, ActionSetupEvent, DeclaredAction, DeclaredActionSet};
use bevy_oxr::backend::{subaction_paths, typed_action_kind, ActionSidedness, ActionType, TypedActionKind};
use bevy_oxr::backend::{controller_actions, hand_subpaths, ActionPath, ControllerType};
use bevy_oxr::xr_utils::actions::{binding_suggestions, ActionStateBool, XRUtilsBinding};
use bevy_oxr::xr_utils::xdev_trackers::{is_xdev_tracker, update_xdev_list, xdev_spaces_enabled, XDevListUpdate};

#[test]
fn oculus_touch_bindings_left_then_right() {
    let c = ControllerType::OculusTouch;
    assert_eq!(
        c.get_binding_paths(ActionPath::HandPose),
        vec!["/user/hand/left/input/grip/pose", "/user/hand/right/input/grip/pose"]
    );
    assert_eq!(
        c.get_binding_paths(ActionPath::TriggerTouch),
        vec!["/user/hand/left/input/trigger/touch", "/user/hand/right/input/trigger/touch"]
    );
    assert_eq!(
        c.get_binding_paths(ActionPath::HapticFeedback),
        vec!["/user/hand/left/output/haptic", "/user/hand/right/output/haptic"]
    );
    assert!(c.get_binding_paths(ActionPath::PrimaryButton).is_empty());
}

#[test]
fn controllers_get_sixteen_actions() {
    let actions = controller_actions();
    assert_eq!(actions.len(), 16);
    assert_eq!(actions[0], ActionPath::HandPose);
    assert_eq!(actions[15], ActionPath::ThumbrestTouch);
    assert_eq!(hand_subpaths(), ("/user/hand/left", "/user/hand/right"));
}

#[test]
fn trackers_are_spaced_devices_named_tracker() {
    assert!(is_xdev_tracker(true, "Vive Tracker"));
    assert!(is_xdev_tracker(true, "Tracker"));
    assert!(is_xdev_tracker(true, "Tundra Tracker (LHR-1)"));
    assert!(!is_xdev_tracker(false, "Vive Tracker"));
    assert!(!is_xdev_tracker(true, "Index Controller"));
    assert!(!is_xdev_tracker(true, "tracker"));
    assert!(!is_xdev_tracker(true, ""));
}

#[test]
fn tracker_list_rebuilt_on_new_generation() {
    assert_eq!(update_xdev_list(4, Ok(4)), XDevListUpdate::Keep);
    assert_eq!(update_xdev_list(4, Ok(5)), XDevListUpdate::Rebuild { generation: 5 });
    assert_eq!(update_xdev_list(4, Err(-1)), XDevListUpdate::ReadFailed);
}

#[test]
fn one_suggestion_per_binding() {
    let bindings = vec![
        XRUtilsBinding {
            profile: "/interaction_profiles/valve/index_controller".to_string(),
            binding: "/user/hand/left/input/a/click".to_string(),
        },
        XRUtilsBinding {
            profile: "/interaction_profiles/oculus/touch_controller".to_string(),
            binding: "/user/hand/left/input/x/click".to_string(),
        },
    ];
    let s = binding_suggestions(77, &bindings);
    assert_eq!(s.len(), 2);
    assert_eq!(s[0].action, 77);
    assert_eq!(s[0].interaction_profile, "/interaction_profiles/valve/index_controller");
    assert_eq!(s[0].bindings, vec!["/user/hand/left/input/a/click".to_string()]);
    assert_eq!(s[1].interaction_profile, "/interaction_profiles/oculus/touch_controller");
    assert_eq!(s[1].bindings, vec!["/user/hand/left/input/x/click".to_string()]);
    assert!(binding_suggestions(1, &vec![]).is_empty());
}

#[test]
fn boolean_action_state() {
    let s = ActionStateBool::initial();
    assert_eq!(s.last_change_time, i64::MIN);
    assert!(!s.current_state && !s.is_active && !s.changed_since_last_sync);
    let reported = ActionStateBool { current_state: true, changed_since_last_sync: true, last_change_time: 10, is_active: true };
    assert_eq!(s.synced(Ok(reported)), reported);
    assert_eq!(reported.synced(Err(-3)), reported);
    assert_eq!(s.synced(Err(-3)), s);
}

#[test]
fn xdev_spaces_need_instance_and_support() {
    assert!(xdev_spaces_enabled(true, Ok(true)));
    assert!(!xdev_spaces_enabled(true, Ok(false)));
    assert!(!xdev_spaces_enabled(true, Err(-1)));
    assert!(!xdev_spaces_enabled(false, Ok(true)));
}

#[test]
fn action_setup_attaches_each_set_after_its_suggestions() {
    let b = |p: &str, s: &str| XRUtilsBinding { profile: p.to_string(), binding: s.to_string() };
    let sets = vec![
        DeclaredActionSet {
            handle: 1,
            actions: vec![
                DeclaredAction { handle: 10, bindings: vec![b("/p/a", "/x"), b("/p/b", "/y")] },
                DeclaredAction { handle: 11, bindings: vec![] },
                DeclaredAction { handle: 12, bindings: vec![b("/p/a", "/z")] },
            ],
        },
        DeclaredActionSet { handle: 2, actions: vec![] },
    ];
    let events = action_setup_events(&sets);
    assert_eq!(events.len(), 5);
    let describe: Vec<String> = events
        .iter()
        .map(|e| match e {
            ActionSetupEvent::Suggest(s) => format!("{} {} {}", s.action, s.interaction_profile, s.bindings.join(",")),
            ActionSetupEvent::Attach(h) => format!("attach {}", h),
        })
        .collect();
    assert_eq!(describe, vec!["10 /p/a /x", "10 /p/b /y", "12 /p/a /z", "attach 1", "attach 2"]);
}

#[test]
fn action_creation_mapping() {
    assert_eq!(typed_action_kind(ActionType::Float), TypedActionKind::F32);
    assert_eq!(typed_action_kind(ActionType::Pose), TypedActionKind::PoseF);
    assert_eq!(typed_action_kind(ActionType::Haptics), TypedActionKind::Haptic);
    assert_eq!(typed_action_kind(ActionType::Bool), TypedActionKind::Bool);
    assert!(subaction_paths(ActionSidedness::Single, &vec![5, 6]).is_empty());
    assert_eq!(subaction_paths(ActionSidedness::Double, &vec![5, 6]), vec![5, 6]);
}

#[test]
fn actions_are_planned_in_order() {
    let decls = vec![
        ActionDecl { path: ActionPath::HandPose, sidedness: ActionSidedness::Double, action_type: ActionType::Pose },
        ActionDecl { path: ActionPath::MenuButton, sidedness: ActionSidedness::Single, action_type: ActionType::Bool },
    ];
    let plan = plan_actions(&decls, &vec![7, 8]);
    assert_eq!(plan.len(), 2);
    assert_eq!((plan[0].path, plan[0].kind), (ActionPath::HandPose, TypedActionKind::PoseF));
    assert_eq!(plan[0].subaction_paths, vec![7, 8]);
    assert_eq!((plan[1].path, plan[1].kind), (ActionPath::MenuButton, TypedActionKind::Bool));
    assert!(plan[1].subaction_paths.is_empty());
}
