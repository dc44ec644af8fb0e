//! The input paths of the Valve Index controller interaction profile.

use vstd::prelude::*;

verus! {

/// The paths of a button: its touch sensor and its click.
#[allow(non_snake_case)]
#[derive(Clone, Copy, Debug)]
pub struct ButtonProfile<'a> {
    pub TOUCH: &'a str,
    pub CLICK: &'a str,
}

/// The paths of the squeeze sensor: how far and how hard the grip is squeezed.
#[allow(non_snake_case)]
#[derive(Clone, Copy, Debug)]
pub struct SqueezeProfile<'a> {
    pub VALUE: &'a str,
    pub FORCE: &'a str,
}

/// The paths of the trigger.
#[allow(non_snake_case)]
#[derive(Clone, Copy, Debug)]
pub struct TriggerProfile<'a> {
    pub CLICK: &'a str,
    pub VALUE: &'a str,
    pub TOUCH: &'a str,
}

/// The paths of the thumbstick.
#[allow(non_snake_case)]
#[derive(Clone, Copy, Debug)]
pub struct ThumbstickProfile<'a> {
    pub X: &'a str,
    pub Y: &'a str,
    pub CLICK: &'a str,
    pub TOUCH: &'a str,
}

/// The paths of the trackpad.
#[allow(non_snake_case)]
#[derive(Clone, Copy, Debug)]
pub struct TrackpadProfile<'a> {
    pub X: &'a str,
    pub Y: &'a str,
    pub FORCE: &'a str,
    pub TOUCH: &'a str,
}

/// The path of a pose.
#[allow(non_snake_case)]
#[derive(Clone, Copy, Debug)]
pub struct SpaceProfile<'a> {
    pub POSE: &'a str,
}

/// The paths of one controller.
#[allow(non_snake_case)]
#[derive(Clone, Copy, Debug)]
pub struct Side<'a> {
    pub INPUT: IndexInput<'a>,
}

/// The input paths of one controller.
#[allow(non_snake_case)]
#[derive(Clone, Copy, Debug)]
pub struct IndexInput<'a> {
    pub SYSTEM: ButtonProfile<'a>,
    pub A: ButtonProfile<'a>,
    pub B: ButtonProfile<'a>,
    pub SQUEEZE: SqueezeProfile<'a>,
    pub TRIGGER: TriggerProfile<'a>,
    pub THUMSTICK: ThumbstickProfile<'a>,
    pub TRACKPAD: TrackpadProfile<'a>,
    pub GRIP: SpaceProfile<'a>,
    pub AIM: SpaceProfile<'a>,
}

/// The paths of both controllers.
#[allow(non_snake_case)]
#[derive(Clone, Copy, Debug)]
pub struct Hand<'a> {
    pub LEFT: Side<'a>,
    pub RIGHT: Side<'a>,
}

/// The paths under `/user`.
#[allow(non_snake_case)]
#[derive(Clone, Copy, Debug)]
pub struct User<'a> {
    pub HAND: Hand<'a>,
}

/// The paths of the Valve Index controller interaction profile.
#[allow(non_snake_case)]
#[derive(Clone, Copy, Debug)]
pub struct Profile<'a> {
    pub USER: User<'a>,
}

/// The left controller's system button.
#[verifier::allow_in_spec]
pub fn left_system_button() -> ButtonProfile<'static>
    returns
        (ButtonProfile {
            CLICK: "/interaction_profiles/valve/index_controller/user/hand/left/input/system/click",
            TOUCH: "/interaction_profiles/valve/index_controller/user/hand/left/input/system/touch",
        }),
{
    ButtonProfile {
        CLICK: "/interaction_profiles/valve/index_controller/user/hand/left/input/system/click",
        TOUCH: "/interaction_profiles/valve/index_controller/user/hand/left/input/system/touch",
    }
}

/// The left controller's A button.
#[verifier::allow_in_spec]
pub fn left_a_button() -> ButtonProfile<'static>
    returns
        (ButtonProfile {
            CLICK: "/interaction_profiles/valve/index_controller/user/hand/left/input/a/click",
            TOUCH: "/interaction_profiles/valve/index_controller/user/hand/left/input/a/touch",
        }),
{
    ButtonProfile {
        CLICK: "/interaction_profiles/valve/index_controller/user/hand/left/input/a/click",
        TOUCH: "/interaction_profiles/valve/index_controller/user/hand/left/input/a/touch",
    }
}

/// The left controller's B button.
#[verifier::allow_in_spec]
pub fn left_b_button() -> ButtonProfile<'static>
    returns
        (ButtonProfile {
            CLICK: "/interaction_profiles/valve/index_controller/user/hand/left/input/b/click",
            TOUCH: "/interaction_profiles/valve/index_controller/user/hand/left/input/b/touch",
        }),
{
    ButtonProfile {
        CLICK: "/interaction_profiles/valve/index_controller/user/hand/left/input/b/click",
        TOUCH: "/interaction_profiles/valve/index_controller/user/hand/left/input/b/touch",
    }
}

/// The left controller's squeeze sensor.
#[verifier::allow_in_spec]
pub fn left_squeeze() -> SqueezeProfile<'static>
    returns
        (SqueezeProfile {
            VALUE: "/interaction_profiles/valve/index_controller/user/hand/left/input/squeeze/value",
            FORCE: "/interaction_profiles/valve/index_controller/user/hand/left/input/squeeze/force",
        }),
{
    SqueezeProfile {
        VALUE: "/interaction_profiles/valve/index_controller/user/hand/left/input/squeeze/value",
        FORCE: "/interaction_profiles/valve/index_controller/user/hand/left/input/squeeze/force",
    }
}

/// The left controller's trigger (its touch path is the trigger value path).
#[verifier::allow_in_spec]
pub fn left_trigger() -> TriggerProfile<'static>
    returns
        (TriggerProfile {
            CLICK: "/interaction_profiles/valve/index_controller/user/hand/left/input/trigger/click",
            VALUE: "/interaction_profiles/valve/index_controller/user/hand/left/input/trigger/value",
            TOUCH: "/interaction_profiles/valve/index_controller/user/hand/left/input/trigger/value",
        }),
{
    TriggerProfile {
        CLICK: "/interaction_profiles/valve/index_controller/user/hand/left/input/trigger/click",
        VALUE: "/interaction_profiles/valve/index_controller/user/hand/left/input/trigger/value",
        TOUCH: "/interaction_profiles/valve/index_controller/user/hand/left/input/trigger/value",
    }
}

/// The left controller's thumbstick.
#[verifier::allow_in_spec]
pub fn left_thumbstick() -> ThumbstickProfile<'static>
    returns
        (ThumbstickProfile {
            X: "/interaction_profiles/valve/index_controller/user/hand/left/input/thumbstick/x",
            Y: "/interaction_profiles/valve/index_controller/user/hand/left/input/thumbstick/y",
            CLICK: "/interaction_profiles/valve/index_controller/user/hand/left/input/thumbstick/click",
            TOUCH: "/interaction_profiles/valve/index_controller/user/hand/left/input/thumbstick/touch",
        }),
{
    ThumbstickProfile {
        X: "/interaction_profiles/valve/index_controller/user/hand/left/input/thumbstick/x",
        Y: "/interaction_profiles/valve/index_controller/user/hand/left/input/thumbstick/y",
        CLICK: "/interaction_profiles/valve/index_controller/user/hand/left/input/thumbstick/click",
        TOUCH: "/interaction_profiles/valve/index_controller/user/hand/left/input/thumbstick/touch",
    }
}

/// The left controller's trackpad.
#[verifier::allow_in_spec]
pub fn left_trackpad() -> TrackpadProfile<'static>
    returns
        (TrackpadProfile {
            X: "/interaction_profiles/valve/index_controller/user/hand/left/input/trackpad/x",
            Y: "/interaction_profiles/valve/index_controller/user/hand/left/input/trackpad/y",
            FORCE: "/interaction_profiles/valve/index_controller/user/hand/left/input/trackpad/force",
            TOUCH: "/interaction_profiles/valve/index_controller/user/hand/left/input/trackpad/touch",
        }),
{
    TrackpadProfile {
        X: "/interaction_profiles/valve/index_controller/user/hand/left/input/trackpad/x",
        Y: "/interaction_profiles/valve/index_controller/user/hand/left/input/trackpad/y",
        FORCE: "/interaction_profiles/valve/index_controller/user/hand/left/input/trackpad/force",
        TOUCH: "/interaction_profiles/valve/index_controller/user/hand/left/input/trackpad/touch",
    }
}

/// The left controller's grip pose.
#[verifier::allow_in_spec]
pub fn left_grip() -> SpaceProfile<'static>
    returns
        (SpaceProfile {
            POSE: "/interaction_profiles/valve/index_controller/user/hand/left/input/grip/pose",
        }),
{
    SpaceProfile {
        POSE: "/interaction_profiles/valve/index_controller/user/hand/left/input/grip/pose",
    }
}

/// The left controller's aim pose.
#[verifier::allow_in_spec]
pub fn left_aim() -> SpaceProfile<'static>
    returns
        (SpaceProfile {
            POSE: "/interaction_profiles/valve/index_controller/user/hand/left/input/aim/pose",
        }),
{
    SpaceProfile {
        POSE: "/interaction_profiles/valve/index_controller/user/hand/left/input/aim/pose",
    }
}

/// The input paths of the left controller.
#[verifier::allow_in_spec]
pub fn left_input() -> IndexInput<'static>
    returns
        (IndexInput {
            SYSTEM: left_system_button(),
            A: left_a_button(),
            B: left_b_button(),
            SQUEEZE: left_squeeze(),
            TRIGGER: left_trigger(),
            THUMSTICK: left_thumbstick(),
            TRACKPAD: left_trackpad(),
            GRIP: left_grip(),
            AIM: left_aim(),
        }),
{
    IndexInput {
        SYSTEM: left_system_button(),
        A: left_a_button(),
        B: left_b_button(),
        SQUEEZE: left_squeeze(),
        TRIGGER: left_trigger(),
        THUMSTICK: left_thumbstick(),
        TRACKPAD: left_trackpad(),
        GRIP: left_grip(),
        AIM: left_aim(),
    }
}

/// The paths of the left controller.
#[verifier::allow_in_spec]
pub fn left_hand() -> Side<'static>
    returns
        (Side {
            INPUT: left_input(),
        }),
{
    Side {
        INPUT: left_input(),
    }
}

/// The right controller's system button.
#[verifier::allow_in_spec]
pub fn right_system_button() -> ButtonProfile<'static>
    returns
        (ButtonProfile {
            CLICK: "/interaction_profiles/valve/index_controller/user/hand/right/input/system/click",
            TOUCH: "/interaction_profiles/valve/index_controller/user/hand/right/input/system/touch",
        }),
{
    ButtonProfile {
        CLICK: "/interaction_profiles/valve/index_controller/user/hand/right/input/system/click",
        TOUCH: "/interaction_profiles/valve/index_controller/user/hand/right/input/system/touch",
    }
}

/// The right controller's A button.
#[verifier::allow_in_spec]
pub fn right_a_button() -> ButtonProfile<'static>
    returns
        (ButtonProfile {
            CLICK: "/interaction_profiles/valve/index_controller/user/hand/right/input/a/click",
            TOUCH: "/interaction_profiles/valve/index_controller/user/hand/right/input/a/touch",
        }),
{
    ButtonProfile {
        CLICK: "/interaction_profiles/valve/index_controller/user/hand/right/input/a/click",
        TOUCH: "/interaction_profiles/valve/index_controller/user/hand/right/input/a/touch",
    }
}

/// The right controller's B button.
#[verifier::allow_in_spec]
pub fn right_b_button() -> ButtonProfile<'static>
    returns
        (ButtonProfile {
            CLICK: "/interaction_profiles/valve/index_controller/user/hand/right/input/b/click",
            TOUCH: "/interaction_profiles/valve/index_controller/user/hand/right/input/b/touch",
        }),
{
    ButtonProfile {
        CLICK: "/interaction_profiles/valve/index_controller/user/hand/right/input/b/click",
        TOUCH: "/interaction_profiles/valve/index_controller/user/hand/right/input/b/touch",
    }
}

/// The right controller's squeeze sensor.
#[verifier::allow_in_spec]
pub fn right_squeeze() -> SqueezeProfile<'static>
    returns
        (SqueezeProfile {
            VALUE: "/interaction_profiles/valve/index_controller/user/hand/right/input/squeeze/value",
            FORCE: "/interaction_profiles/valve/index_controller/user/hand/right/input/squeeze/force",
        }),
{
    SqueezeProfile {
        VALUE: "/interaction_profiles/valve/index_controller/user/hand/right/input/squeeze/value",
        FORCE: "/interaction_profiles/valve/index_controller/user/hand/right/input/squeeze/force",
    }
}

/// The right controller's trigger (its touch path is the trigger value path).
#[verifier::allow_in_spec]
pub fn right_trigger() -> TriggerProfile<'static>
    returns
        (TriggerProfile {
            CLICK: "/interaction_profiles/valve/index_controller/user/hand/right/input/trigger/click",
            VALUE: "/interaction_profiles/valve/index_controller/user/hand/right/input/trigger/value",
            TOUCH: "/interaction_profiles/valve/index_controller/user/hand/right/input/trigger/value",
        }),
{
    TriggerProfile {
        CLICK: "/interaction_profiles/valve/index_controller/user/hand/right/input/trigger/click",
        VALUE: "/interaction_profiles/valve/index_controller/user/hand/right/input/trigger/value",
        TOUCH: "/interaction_profiles/valve/index_controller/user/hand/right/input/trigger/value",
    }
}

/// The right controller's thumbstick.
#[verifier::allow_in_spec]
pub fn right_thumbstick() -> ThumbstickProfile<'static>
    returns
        (ThumbstickProfile {
            X: "/interaction_profiles/valve/index_controller/user/hand/right/input/thumbstick/x",
            Y: "/interaction_profiles/valve/index_controller/user/hand/right/input/thumbstick/y",
            CLICK: "/interaction_profiles/valve/index_controller/user/hand/right/input/thumbstick/click",
            TOUCH: "/interaction_profiles/valve/index_controller/user/hand/right/input/thumbstick/touch",
        }),
{
    ThumbstickProfile {
        X: "/interaction_profiles/valve/index_controller/user/hand/right/input/thumbstick/x",
        Y: "/interaction_profiles/valve/index_controller/user/hand/right/input/thumbstick/y",
        CLICK: "/interaction_profiles/valve/index_controller/user/hand/right/input/thumbstick/click",
        TOUCH: "/interaction_profiles/valve/index_controller/user/hand/right/input/thumbstick/touch",
    }
}

/// The right controller's trackpad.
#[verifier::allow_in_spec]
pub fn right_trackpad() -> TrackpadProfile<'static>
    returns
        (TrackpadProfile {
            X: "/interaction_profiles/valve/index_controller/user/hand/right/input/trackpad/x",
            Y: "/interaction_profiles/valve/index_controller/user/hand/right/input/trackpad/y",
            FORCE: "/interaction_profiles/valve/index_controller/user/hand/right/input/trackpad/force",
            TOUCH: "/interaction_profiles/valve/index_controller/user/hand/right/input/trackpad/touch",
        }),
{
    TrackpadProfile {
        X: "/interaction_profiles/valve/index_controller/user/hand/right/input/trackpad/x",
        Y: "/interaction_profiles/valve/index_controller/user/hand/right/input/trackpad/y",
        FORCE: "/interaction_profiles/valve/index_controller/user/hand/right/input/trackpad/force",
        TOUCH: "/interaction_profiles/valve/index_controller/user/hand/right/input/trackpad/touch",
    }
}

/// The right controller's grip pose.
#[verifier::allow_in_spec]
pub fn right_grip() -> SpaceProfile<'static>
    returns
        (SpaceProfile {
            POSE: "/interaction_profiles/valve/index_controller/user/hand/right/input/grip/pose",
        }),
{
    SpaceProfile {
        POSE: "/interaction_profiles/valve/index_controller/user/hand/right/input/grip/pose",
    }
}

/// The right controller's aim pose.
#[verifier::allow_in_spec]
pub fn right_aim() -> SpaceProfile<'static>
    returns
        (SpaceProfile {
            POSE: "/interaction_profiles/valve/index_controller/user/hand/right/input/aim/pose",
        }),
{
    SpaceProfile {
        POSE: "/interaction_profiles/valve/index_controller/user/hand/right/input/aim/pose",
    }
}

/// The input paths of the right controller.
#[verifier::allow_in_spec]
pub fn right_input() -> IndexInput<'static>
    returns
        (IndexInput {
            SYSTEM: right_system_button(),
            A: right_a_button(),
            B: right_b_button(),
            SQUEEZE: right_squeeze(),
            TRIGGER: right_trigger(),
            THUMSTICK: right_thumbstick(),
            TRACKPAD: right_trackpad(),
            GRIP: right_grip(),
            AIM: right_aim(),
        }),
{
    IndexInput {
        SYSTEM: right_system_button(),
        A: right_a_button(),
        B: right_b_button(),
        SQUEEZE: right_squeeze(),
        TRIGGER: right_trigger(),
        THUMSTICK: right_thumbstick(),
        TRACKPAD: right_trackpad(),
        GRIP: right_grip(),
        AIM: right_aim(),
    }
}

/// The paths of the right controller.
#[verifier::allow_in_spec]
pub fn right_hand() -> Side<'static>
    returns
        (Side {
            INPUT: right_input(),
        }),
{
    Side {
        INPUT: right_input(),
    }
}

/// The paths of both controllers.
#[verifier::allow_in_spec]
pub fn hand() -> Hand<'static>
    returns
        (Hand {
            LEFT: left_hand(),
            RIGHT: right_hand(),
        }),
{
    Hand {
        LEFT: left_hand(),
        RIGHT: right_hand(),
    }
}

/// The paths under `/user`.
#[verifier::allow_in_spec]
pub fn user() -> User<'static>
    returns
        (User {
            HAND: hand(),
        }),
{
    User {
        HAND: hand(),
    }
}

/// The paths of the Valve Index controller interaction profile.
#[verifier::allow_in_spec]
pub fn index_controller() -> Profile<'static>
    returns
        (Profile {
            USER: user(),
        }),
{
    Profile {
        USER: user(),
    }
}

/// The path of `input` on the hand `side` of the Valve Index controller.
pub open spec fn index_path(side: Seq<char>, input: Seq<char>) -> Seq<char> {
    "/interaction_profiles/valve/index_controller/user/hand/"@ + side + "/input/"@ + input
}

/// Every path of the profile is the path of its own input on its own hand,
/// the left hand's under `left` and the right hand's under `right`, alike on
/// both; the trigger's touch path is the trigger's value path.
pub proof fn lemma_index_controller_paths()
    ensures
        index_controller().USER.HAND.LEFT.INPUT.SYSTEM.CLICK@ == index_path("left"@, "system/click"@),
        index_controller().USER.HAND.LEFT.INPUT.SYSTEM.TOUCH@ == index_path("left"@, "system/touch"@),
        index_controller().USER.HAND.LEFT.INPUT.A.CLICK@ == index_path("left"@, "a/click"@),
        index_controller().USER.HAND.LEFT.INPUT.A.TOUCH@ == index_path("left"@, "a/touch"@),
        index_controller().USER.HAND.LEFT.INPUT.B.CLICK@ == index_path("left"@, "b/click"@),
        index_controller().USER.HAND.LEFT.INPUT.B.TOUCH@ == index_path("left"@, "b/touch"@),
        index_controller().USER.HAND.LEFT.INPUT.SQUEEZE.VALUE@ == index_path("left"@, "squeeze/value"@),
        index_controller().USER.HAND.LEFT.INPUT.SQUEEZE.FORCE@ == index_path("left"@, "squeeze/force"@),
        index_controller().USER.HAND.LEFT.INPUT.TRIGGER.CLICK@ == index_path("left"@, "trigger/click"@),
        index_controller().USER.HAND.LEFT.INPUT.TRIGGER.VALUE@ == index_path("left"@, "trigger/value"@),
        index_controller().USER.HAND.LEFT.INPUT.TRIGGER.TOUCH@ == index_path("left"@, "trigger/value"@),
        index_controller().USER.HAND.LEFT.INPUT.THUMSTICK.X@ == index_path("left"@, "thumbstick/x"@),
        index_controller().USER.HAND.LEFT.INPUT.THUMSTICK.Y@ == index_path("left"@, "thumbstick/y"@),
        index_controller().USER.HAND.LEFT.INPUT.THUMSTICK.CLICK@ == index_path("left"@, "thumbstick/click"@),
        index_controller().USER.HAND.LEFT.INPUT.THUMSTICK.TOUCH@ == index_path("left"@, "thumbstick/touch"@),
        index_controller().USER.HAND.LEFT.INPUT.TRACKPAD.X@ == index_path("left"@, "trackpad/x"@),
        index_controller().USER.HAND.LEFT.INPUT.TRACKPAD.Y@ == index_path("left"@, "trackpad/y"@),
        index_controller().USER.HAND.LEFT.INPUT.TRACKPAD.FORCE@ == index_path("left"@, "trackpad/force"@),
        index_controller().USER.HAND.LEFT.INPUT.TRACKPAD.TOUCH@ == index_path("left"@, "trackpad/touch"@),
        index_controller().USER.HAND.LEFT.INPUT.GRIP.POSE@ == index_path("left"@, "grip/pose"@),
        index_controller().USER.HAND.LEFT.INPUT.AIM.POSE@ == index_path("left"@, "aim/pose"@),
        index_controller().USER.HAND.RIGHT.INPUT.SYSTEM.CLICK@ == index_path("right"@, "system/click"@),
        index_controller().USER.HAND.RIGHT.INPUT.SYSTEM.TOUCH@ == index_path("right"@, "system/touch"@),
        index_controller().USER.HAND.RIGHT.INPUT.A.CLICK@ == index_path("right"@, "a/click"@),
        index_controller().USER.HAND.RIGHT.INPUT.A.TOUCH@ == index_path("right"@, "a/touch"@),
        index_controller().USER.HAND.RIGHT.INPUT.B.CLICK@ == index_path("right"@, "b/click"@),
        index_controller().USER.HAND.RIGHT.INPUT.B.TOUCH@ == index_path("right"@, "b/touch"@),
        index_controller().USER.HAND.RIGHT.INPUT.SQUEEZE.VALUE@ == index_path("right"@, "squeeze/value"@),
        index_controller().USER.HAND.RIGHT.INPUT.SQUEEZE.FORCE@ == index_path("right"@, "squeeze/force"@),
        index_controller().USER.HAND.RIGHT.INPUT.TRIGGER.CLICK@ == index_path("right"@, "trigger/click"@),
        index_controller().USER.HAND.RIGHT.INPUT.TRIGGER.VALUE@ == index_path("right"@, "trigger/value"@),
        index_controller().USER.HAND.RIGHT.INPUT.TRIGGER.TOUCH@ == index_path("right"@, "trigger/value"@),
        index_controller().USER.HAND.RIGHT.INPUT.THUMSTICK.X@ == index_path("right"@, "thumbstick/x"@),
        index_controller().USER.HAND.RIGHT.INPUT.THUMSTICK.Y@ == index_path("right"@, "thumbstick/y"@),
        index_controller().USER.HAND.RIGHT.INPUT.THUMSTICK.CLICK@ == index_path("right"@, "thumbstick/click"@),
        index_controller().USER.HAND.RIGHT.INPUT.THUMSTICK.TOUCH@ == index_path("right"@, "thumbstick/touch"@),
        index_controller().USER.HAND.RIGHT.INPUT.TRACKPAD.X@ == index_path("right"@, "trackpad/x"@),
        index_controller().USER.HAND.RIGHT.INPUT.TRACKPAD.Y@ == index_path("right"@, "trackpad/y"@),
        index_controller().USER.HAND.RIGHT.INPUT.TRACKPAD.FORCE@ == index_path("right"@, "trackpad/force"@),
        index_controller().USER.HAND.RIGHT.INPUT.TRACKPAD.TOUCH@ == index_path("right"@, "trackpad/touch"@),
        index_controller().USER.HAND.RIGHT.INPUT.GRIP.POSE@ == index_path("right"@, "grip/pose"@),
        index_controller().USER.HAND.RIGHT.INPUT.AIM.POSE@ == index_path("right"@, "aim/pose"@),
{
    reveal_strlit("/interaction_profiles/valve/index_controller/user/hand/left/input/a/click");
    reveal_strlit("/interaction_profiles/valve/index_controller/user/hand/left/input/a/touch");
    reveal_strlit("/interaction_profiles/valve/index_controller/user/hand/left/input/aim/pose");
    reveal_strlit("/interaction_profiles/valve/index_controller/user/hand/left/input/b/click");
    reveal_strlit("/interaction_profiles/valve/index_controller/user/hand/left/input/b/touch");
    reveal_strlit("/interaction_profiles/valve/index_controller/user/hand/left/input/grip/pose");
    reveal_strlit("/interaction_profiles/valve/index_controller/user/hand/left/input/squeeze/force");
    reveal_strlit("/interaction_profiles/valve/index_controller/user/hand/left/input/squeeze/value");
    reveal_strlit("/interaction_profiles/valve/index_controller/user/hand/left/input/system/click");
    reveal_strlit("/interaction_profiles/valve/index_controller/user/hand/left/input/system/touch");
    reveal_strlit("/interaction_profiles/valve/index_controller/user/hand/left/input/thumbstick/click");
    reveal_strlit("/interaction_profiles/valve/index_controller/user/hand/left/input/thumbstick/touch");
    reveal_strlit("/interaction_profiles/valve/index_controller/user/hand/left/input/thumbstick/x");
    reveal_strlit("/interaction_profiles/valve/index_controller/user/hand/left/input/thumbstick/y");
    reveal_strlit("/interaction_profiles/valve/index_controller/user/hand/left/input/trackpad/force");
    reveal_strlit("/interaction_profiles/valve/index_controller/user/hand/left/input/trackpad/touch");
    reveal_strlit("/interaction_profiles/valve/index_controller/user/hand/left/input/trackpad/x");
    reveal_strlit("/interaction_profiles/valve/index_controller/user/hand/left/input/trackpad/y");
    reveal_strlit("/interaction_profiles/valve/index_controller/user/hand/left/input/trigger/click");
    reveal_strlit("/interaction_profiles/valve/index_controller/user/hand/left/input/trigger/value");
    reveal_strlit("/interaction_profiles/valve/index_controller/user/hand/right/input/a/click");
    reveal_strlit("/interaction_profiles/valve/index_controller/user/hand/right/input/a/touch");
    reveal_strlit("/interaction_profiles/valve/index_controller/user/hand/right/input/aim/pose");
    reveal_strlit("/interaction_profiles/valve/index_controller/user/hand/right/input/b/click");
    reveal_strlit("/interaction_profiles/valve/index_controller/user/hand/right/input/b/touch");
    reveal_strlit("/interaction_profiles/valve/index_controller/user/hand/right/input/grip/pose");
    reveal_strlit("/interaction_profiles/valve/index_controller/user/hand/right/input/squeeze/force");
    reveal_strlit("/interaction_profiles/valve/index_controller/user/hand/right/input/squeeze/value");
    reveal_strlit("/interaction_profiles/valve/index_controller/user/hand/right/input/system/click");
    reveal_strlit("/interaction_profiles/valve/index_controller/user/hand/right/input/system/touch");
    reveal_strlit("/interaction_profiles/valve/index_controller/user/hand/right/input/thumbstick/click");
    reveal_strlit("/interaction_profiles/valve/index_controller/user/hand/right/input/thumbstick/touch");
    reveal_strlit("/interaction_profiles/valve/index_controller/user/hand/right/input/thumbstick/x");
    reveal_strlit("/interaction_profiles/valve/index_controller/user/hand/right/input/thumbstick/y");
    reveal_strlit("/interaction_profiles/valve/index_controller/user/hand/right/input/trackpad/force");
    reveal_strlit("/interaction_profiles/valve/index_controller/user/hand/right/input/trackpad/touch");
    reveal_strlit("/interaction_profiles/valve/index_controller/user/hand/right/input/trackpad/x");
    reveal_strlit("/interaction_profiles/valve/index_controller/user/hand/right/input/trackpad/y");
    reveal_strlit("/interaction_profiles/valve/index_controller/user/hand/right/input/trigger/click");
    reveal_strlit("/interaction_profiles/valve/index_controller/user/hand/right/input/trigger/value");
    reveal_strlit("/input/");
    reveal_strlit("/interaction_profiles/valve/index_controller/user/hand/");
    reveal_strlit("a/click");
    reveal_strlit("a/touch");
    reveal_strlit("aim/pose");
    reveal_strlit("b/click");
    reveal_strlit("b/touch");
    reveal_strlit("grip/pose");
    reveal_strlit("left");
    reveal_strlit("right");
    reveal_strlit("squeeze/force");
    reveal_strlit("squeeze/value");
    reveal_strlit("system/click");
    reveal_strlit("system/touch");
    reveal_strlit("thumbstick/click");
    reveal_strlit("thumbstick/touch");
    reveal_strlit("thumbstick/x");
    reveal_strlit("thumbstick/y");
    reveal_strlit("trackpad/force");
    reveal_strlit("trackpad/touch");
    reveal_strlit("trackpad/x");
    reveal_strlit("trackpad/y");
    reveal_strlit("trigger/click");
    reveal_strlit("trigger/value");
    assert(index_controller().USER.HAND.LEFT.INPUT.SYSTEM.CLICK@ =~= index_path("left"@, "system/click"@));
    assert(index_controller().USER.HAND.LEFT.INPUT.SYSTEM.TOUCH@ =~= index_path("left"@, "system/touch"@));
    assert(index_controller().USER.HAND.LEFT.INPUT.A.CLICK@ =~= index_path("left"@, "a/click"@));
    assert(index_controller().USER.HAND.LEFT.INPUT.A.TOUCH@ =~= index_path("left"@, "a/touch"@));
    assert(index_controller().USER.HAND.LEFT.INPUT.B.CLICK@ =~= index_path("left"@, "b/click"@));
    assert(index_controller().USER.HAND.LEFT.INPUT.B.TOUCH@ =~= index_path("left"@, "b/touch"@));
    assert(index_controller().USER.HAND.LEFT.INPUT.SQUEEZE.VALUE@ =~= index_path("left"@, "squeeze/value"@));
    assert(index_controller().USER.HAND.LEFT.INPUT.SQUEEZE.FORCE@ =~= index_path("left"@, "squeeze/force"@));
    assert(index_controller().USER.HAND.LEFT.INPUT.TRIGGER.CLICK@ =~= index_path("left"@, "trigger/click"@));
    assert(index_controller().USER.HAND.LEFT.INPUT.TRIGGER.VALUE@ =~= index_path("left"@, "trigger/value"@));
    assert(index_controller().USER.HAND.LEFT.INPUT.TRIGGER.TOUCH@ =~= index_path("left"@, "trigger/value"@));
    assert(index_controller().USER.HAND.LEFT.INPUT.THUMSTICK.X@ =~= index_path("left"@, "thumbstick/x"@));
    assert(index_controller().USER.HAND.LEFT.INPUT.THUMSTICK.Y@ =~= index_path("left"@, "thumbstick/y"@));
    assert(index_controller().USER.HAND.LEFT.INPUT.THUMSTICK.CLICK@ =~= index_path("left"@, "thumbstick/click"@));
    assert(index_controller().USER.HAND.LEFT.INPUT.THUMSTICK.TOUCH@ =~= index_path("left"@, "thumbstick/touch"@));
    assert(index_controller().USER.HAND.LEFT.INPUT.TRACKPAD.X@ =~= index_path("left"@, "trackpad/x"@));
    assert(index_controller().USER.HAND.LEFT.INPUT.TRACKPAD.Y@ =~= index_path("left"@, "trackpad/y"@));
    assert(index_controller().USER.HAND.LEFT.INPUT.TRACKPAD.FORCE@ =~= index_path("left"@, "trackpad/force"@));
    assert(index_controller().USER.HAND.LEFT.INPUT.TRACKPAD.TOUCH@ =~= index_path("left"@, "trackpad/touch"@));
    assert(index_controller().USER.HAND.LEFT.INPUT.GRIP.POSE@ =~= index_path("left"@, "grip/pose"@));
    assert(index_controller().USER.HAND.LEFT.INPUT.AIM.POSE@ =~= index_path("left"@, "aim/pose"@));
    assert(index_controller().USER.HAND.RIGHT.INPUT.SYSTEM.CLICK@ =~= index_path("right"@, "system/click"@));
    assert(index_controller().USER.HAND.RIGHT.INPUT.SYSTEM.TOUCH@ =~= index_path("right"@, "system/touch"@));
    assert(index_controller().USER.HAND.RIGHT.INPUT.A.CLICK@ =~= index_path("right"@, "a/click"@));
    assert(index_controller().USER.HAND.RIGHT.INPUT.A.TOUCH@ =~= index_path("right"@, "a/touch"@));
    assert(index_controller().USER.HAND.RIGHT.INPUT.B.CLICK@ =~= index_path("right"@, "b/click"@));
    assert(index_controller().USER.HAND.RIGHT.INPUT.B.TOUCH@ =~= index_path("right"@, "b/touch"@));
    assert(index_controller().USER.HAND.RIGHT.INPUT.SQUEEZE.VALUE@ =~= index_path("right"@, "squeeze/value"@));
    assert(index_controller().USER.HAND.RIGHT.INPUT.SQUEEZE.FORCE@ =~= index_path("right"@, "squeeze/force"@));
    assert(index_controller().USER.HAND.RIGHT.INPUT.TRIGGER.CLICK@ =~= index_path("right"@, "trigger/click"@));
    assert(index_controller().USER.HAND.RIGHT.INPUT.TRIGGER.VALUE@ =~= index_path("right"@, "trigger/value"@));
    assert(index_controller().USER.HAND.RIGHT.INPUT.TRIGGER.TOUCH@ =~= index_path("right"@, "trigger/value"@));
    assert(index_controller().USER.HAND.RIGHT.INPUT.THUMSTICK.X@ =~= index_path("right"@, "thumbstick/x"@));
    assert(index_controller().USER.HAND.RIGHT.INPUT.THUMSTICK.Y@ =~= index_path("right"@, "thumbstick/y"@));
    assert(index_controller().USER.HAND.RIGHT.INPUT.THUMSTICK.CLICK@ =~= index_path("right"@, "thumbstick/click"@));
    assert(index_controller().USER.HAND.RIGHT.INPUT.THUMSTICK.TOUCH@ =~= index_path("right"@, "thumbstick/touch"@));
    assert(index_controller().USER.HAND.RIGHT.INPUT.TRACKPAD.X@ =~= index_path("right"@, "trackpad/x"@));
    assert(index_controller().USER.HAND.RIGHT.INPUT.TRACKPAD.Y@ =~= index_path("right"@, "trackpad/y"@));
    assert(index_controller().USER.HAND.RIGHT.INPUT.TRACKPAD.FORCE@ =~= index_path("right"@, "trackpad/force"@));
    assert(index_controller().USER.HAND.RIGHT.INPUT.TRACKPAD.TOUCH@ =~= index_path("right"@, "trackpad/touch"@));
    assert(index_controller().USER.HAND.RIGHT.INPUT.GRIP.POSE@ =~= index_path("right"@, "grip/pose"@));
    assert(index_controller().USER.HAND.RIGHT.INPUT.AIM.POSE@ =~= index_path("right"@, "aim/pose"@));
}

} // verus!
