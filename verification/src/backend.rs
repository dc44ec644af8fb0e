//! The OpenXR backend's controller model: the actions a controller offers and
//! the input paths each is bound to.

use vstd::prelude::*;

verus! {

/// An action that a controller offers.
#[derive(Clone, Copy, Debug, PartialEq, Eq, Structural)]
pub enum ActionPath {
    HandPose,
    PointerPose,
    GripPull,
    TriggerPull,
    TriggerTouch,
    HapticFeedback,
    PrimaryButton,
    PrimaryButtonTouch,
    SecondaryButton,
    SecondaryButtonTouch,
    MenuButton,
    ThumbstickX,
    ThumbstickY,
    ThumbstickTouch,
    ThumbstickClick,
    ThumbrestTouch,
}

/// A kind of controller.
#[derive(Clone, Copy, Debug, PartialEq, Eq, Structural)]
pub enum ControllerType {
    OculusTouch,
}

/// An action of the OpenXR backend.
pub struct OXrAction {}

/// An action space of the OpenXR backend.
pub struct OXrActionSpace {}

/// A reference space of the OpenXR backend.
pub struct OXrReferenceSpace {}

/// The actions that each controller of a session is created with, in order.
pub open spec fn controller_action_list() -> Seq<ActionPath> {
    seq![
        ActionPath::HandPose,
        ActionPath::PointerPose,
        ActionPath::GripPull,
        ActionPath::TriggerPull,
        ActionPath::TriggerTouch,
        ActionPath::HapticFeedback,
        ActionPath::PrimaryButton,
        ActionPath::PrimaryButtonTouch,
        ActionPath::SecondaryButton,
        ActionPath::SecondaryButtonTouch,
        ActionPath::MenuButton,
        ActionPath::ThumbstickX,
        ActionPath::ThumbstickY,
        ActionPath::ThumbstickTouch,
        ActionPath::ThumbstickClick,
        ActionPath::ThumbrestTouch,
    ]
}

/// Lists [`controller_action_list`].
pub fn controller_actions() -> (r: Vec<ActionPath>)
    ensures
        r@ == controller_action_list(),
{
    let mut v: Vec<ActionPath> = Vec::new();
    v.push(ActionPath::HandPose);
    v.push(ActionPath::PointerPose);
    v.push(ActionPath::GripPull);
    v.push(ActionPath::TriggerPull);
    v.push(ActionPath::TriggerTouch);
    v.push(ActionPath::HapticFeedback);
    v.push(ActionPath::PrimaryButton);
    v.push(ActionPath::PrimaryButtonTouch);
    v.push(ActionPath::SecondaryButton);
    v.push(ActionPath::SecondaryButtonTouch);
    v.push(ActionPath::MenuButton);
    v.push(ActionPath::ThumbstickX);
    v.push(ActionPath::ThumbstickY);
    v.push(ActionPath::ThumbstickTouch);
    v.push(ActionPath::ThumbstickClick);
    v.push(ActionPath::ThumbrestTouch);
    proof {
        assert(v@ =~= controller_action_list());
    }
    v
}

/// The paths of the subactions: the left hand, then the right hand.
pub fn hand_subpaths() -> (r: (&'static str, &'static str))
    ensures
        r.0@ == "/user/hand/left"@,
        r.1@ == "/user/hand/right"@,
{
    ("/user/hand/left", "/user/hand/right")
}

/// Whether the binding paths of `path` on `controller` are known.
pub open spec fn has_binding_paths(controller: ControllerType, path: ActionPath) -> bool {
    match controller {
        ControllerType::OculusTouch => match path {
            ActionPath::HandPose => true,
            ActionPath::PointerPose => true,
            ActionPath::GripPull => true,
            ActionPath::TriggerPull => true,
            ActionPath::TriggerTouch => true,
            ActionPath::HapticFeedback => true,
            ActionPath::PrimaryButton => true,
            _ => false,
        },
    }
}

/// The input paths that `path` is bound to on `controller`: left hand first,
/// then right hand; none for the primary button.
pub open spec fn binding_paths(controller: ControllerType, path: ActionPath) -> Seq<&'static str> {
    match controller {
        ControllerType::OculusTouch => match path {
            ActionPath::HandPose => seq!["/user/hand/left/input/grip/pose", "/user/hand/right/input/grip/pose"],
            ActionPath::PointerPose => seq!["/user/hand/left/input/aim/pose", "/user/hand/right/input/aim/pose"],
            ActionPath::GripPull => seq!["/user/hand/left/input/squeeze/value", "/user/hand/right/input/squeeze/value"],
            ActionPath::TriggerPull => seq!["/user/hand/left/input/trigger/value", "/user/hand/right/input/trigger/value"],
            ActionPath::TriggerTouch => seq!["/user/hand/left/input/trigger/touch", "/user/hand/right/input/trigger/touch"],
            ActionPath::HapticFeedback => seq!["/user/hand/left/output/haptic", "/user/hand/right/output/haptic"],
            _ => seq![],
        },
    }
}

/// The input component that an action reads on each Oculus Touch
/// controller, and what it reads of it; none for the haptic output and for
/// the actions without known paths.
pub open spec fn oculus_touch_input(path: ActionPath) -> Option<(Seq<char>, Seq<char>)> {
    match path {
        ActionPath::HandPose => Some(("grip"@, "pose"@)),
        ActionPath::PointerPose => Some(("aim"@, "pose"@)),
        ActionPath::GripPull => Some(("squeeze"@, "value"@)),
        ActionPath::TriggerPull => Some(("trigger"@, "value"@)),
        ActionPath::TriggerTouch => Some(("trigger"@, "touch"@)),
        _ => None,
    }
}

/// The OpenXR path of `reading` of `component` on the hand `side`.
pub open spec fn hand_input_path(side: Seq<char>, component: Seq<char>, reading: Seq<char>) -> Seq<char> {
    "/user/hand/"@ + side + "/input/"@ + component + "/"@ + reading
}

/// The Oculus Touch binding paths of each action are its input on the left
/// hand, then on the right hand: the grip's pose, the aim's pose, the
/// squeeze's value, the trigger's value and touch; the haptic action goes to
/// each hand's haptic output; the primary button has no path.
pub proof fn lemma_oculus_touch_paths(path: ActionPath)
    ensures
        oculus_touch_input(path) matches Some((c, r)) ==> {
            let p = binding_paths(ControllerType::OculusTouch, path);
            &&& p.len() == 2
            &&& p[0]@ == hand_input_path("left"@, c, r)
            &&& p[1]@ == hand_input_path("right"@, c, r)
        },
        path == ActionPath::HapticFeedback ==> {
            let p = binding_paths(ControllerType::OculusTouch, path);
            &&& p.len() == 2
            &&& p[0]@ == "/user/hand/"@ + "left"@ + "/output/haptic"@
            &&& p[1]@ == "/user/hand/"@ + "right"@ + "/output/haptic"@
        },
        path == ActionPath::PrimaryButton ==> binding_paths(ControllerType::OculusTouch, path).len() == 0,
{
    reveal_strlit("/user/hand/left/input/grip/pose");
    reveal_strlit("/user/hand/right/input/grip/pose");
    reveal_strlit("/user/hand/left/input/aim/pose");
    reveal_strlit("/user/hand/right/input/aim/pose");
    reveal_strlit("/user/hand/left/input/squeeze/value");
    reveal_strlit("/user/hand/right/input/squeeze/value");
    reveal_strlit("/user/hand/left/input/trigger/value");
    reveal_strlit("/user/hand/right/input/trigger/value");
    reveal_strlit("/user/hand/left/input/trigger/touch");
    reveal_strlit("/user/hand/right/input/trigger/touch");
    reveal_strlit("/user/hand/left/output/haptic");
    reveal_strlit("/user/hand/right/output/haptic");
    reveal_strlit("/user/hand/");
    reveal_strlit("left");
    reveal_strlit("right");
    reveal_strlit("/input/");
    reveal_strlit("/");
    reveal_strlit("grip");
    reveal_strlit("aim");
    reveal_strlit("squeeze");
    reveal_strlit("trigger");
    reveal_strlit("pose");
    reveal_strlit("value");
    reveal_strlit("touch");
    reveal_strlit("/output/haptic");
    let p = binding_paths(ControllerType::OculusTouch, path);
    match path {
        ActionPath::HandPose => {
            assert(p[0]@ =~= hand_input_path("left"@, "grip"@, "pose"@));
            assert(p[1]@ =~= hand_input_path("right"@, "grip"@, "pose"@));
        },
        ActionPath::PointerPose => {
            assert(p[0]@ =~= hand_input_path("left"@, "aim"@, "pose"@));
            assert(p[1]@ =~= hand_input_path("right"@, "aim"@, "pose"@));
        },
        ActionPath::GripPull => {
            assert(p[0]@ =~= hand_input_path("left"@, "squeeze"@, "value"@));
            assert(p[1]@ =~= hand_input_path("right"@, "squeeze"@, "value"@));
        },
        ActionPath::TriggerPull => {
            assert(p[0]@ =~= hand_input_path("left"@, "trigger"@, "value"@));
            assert(p[1]@ =~= hand_input_path("right"@, "trigger"@, "value"@));
        },
        ActionPath::TriggerTouch => {
            assert(p[0]@ =~= hand_input_path("left"@, "trigger"@, "touch"@));
            assert(p[1]@ =~= hand_input_path("right"@, "trigger"@, "touch"@));
        },
        ActionPath::HapticFeedback => {
            assert(p[0]@ =~= "/user/hand/"@ + "left"@ + "/output/haptic"@);
            assert(p[1]@ =~= "/user/hand/"@ + "right"@ + "/output/haptic"@);
        },
        _ => {},
    }
}

/// No two different actions of the Oculus Touch controller share a binding
/// path, and the two paths of an action differ.
pub proof fn lemma_oculus_touch_paths_distinct(a1: ActionPath, a2: ActionPath, i: int, j: int)
    requires
        0 <= i < binding_paths(ControllerType::OculusTouch, a1).len(),
        0 <= j < binding_paths(ControllerType::OculusTouch, a2).len(),
        a1 != a2 || i != j,
    ensures
        binding_paths(ControllerType::OculusTouch, a1)[i]@ != binding_paths(ControllerType::OculusTouch, a2)[j]@,
{
    reveal_strlit("/user/hand/left/input/grip/pose");
    reveal_strlit("/user/hand/right/input/grip/pose");
    reveal_strlit("/user/hand/left/input/aim/pose");
    reveal_strlit("/user/hand/right/input/aim/pose");
    reveal_strlit("/user/hand/left/input/squeeze/value");
    reveal_strlit("/user/hand/right/input/squeeze/value");
    reveal_strlit("/user/hand/left/input/trigger/value");
    reveal_strlit("/user/hand/right/input/trigger/value");
    reveal_strlit("/user/hand/left/input/trigger/touch");
    reveal_strlit("/user/hand/right/input/trigger/touch");
    reveal_strlit("/user/hand/left/output/haptic");
    reveal_strlit("/user/hand/right/output/haptic");
    let x = binding_paths(ControllerType::OculusTouch, a1)[i]@;
    let y = binding_paths(ControllerType::OculusTouch, a2)[j]@;
    if x.len() == y.len() {
        assert(x[11] != y[11] || x[17] != y[17] || x[18] != y[18] || x[21] != y[21] || x[22] != y[22]
            || x[25] != y[25] || x[26] != y[26] || x[x.len() - 2] != y[y.len() - 2]);
    }
}

impl ControllerType {
    /// The input paths that `path` is bound to; see [`binding_paths`]. The
    /// paths of the other buttons, the thumbstick and the thumbrest are not
    /// known.
    pub fn get_binding_paths(&self, path: ActionPath) -> (r: Vec<&'static str>)
        requires
            has_binding_paths(*self, path),
        ensures
            r@ == binding_paths(*self, path),
    {
        let mut v: Vec<&'static str> = Vec::new();
        match self {
            ControllerType::OculusTouch => match path {
                ActionPath::HandPose => {
                    v.push("/user/hand/left/input/grip/pose");
                    v.push("/user/hand/right/input/grip/pose");
                },
                ActionPath::PointerPose => {
                    v.push("/user/hand/left/input/aim/pose");
                    v.push("/user/hand/right/input/aim/pose");
                },
                ActionPath::GripPull => {
                    v.push("/user/hand/left/input/squeeze/value");
                    v.push("/user/hand/right/input/squeeze/value");
                },
                ActionPath::TriggerPull => {
                    v.push("/user/hand/left/input/trigger/value");
                    v.push("/user/hand/right/input/trigger/value");
                },
                ActionPath::TriggerTouch => {
                    v.push("/user/hand/left/input/trigger/touch");
                    v.push("/user/hand/right/input/trigger/touch");
                },
                ActionPath::HapticFeedback => {
                    v.push("/user/hand/left/output/haptic");
                    v.push("/user/hand/right/output/haptic");
                },
                _ => {},
            },
        }
        proof {
            assert(v@ =~= binding_paths(*self, path));
        }
        v
    }
}

/// Whether an action is one action for both hands or one per hand.
#[derive(Clone, Copy, Debug, PartialEq, Eq, Structural)]
pub enum ActionSidedness {
    Single,
    Double,
}

/// The kind of value an action reports.
#[derive(Clone, Copy, Debug, PartialEq, Eq, Structural)]
pub enum ActionType {
    Bool,
    Float,
    Haptics,
    Pose,
}

/// The typed action created for an action.
#[derive(Clone, Copy, Debug, PartialEq, Eq, Structural)]
pub enum TypedActionKind {
    F32,
    Bool,
    PoseF,
    Haptic,
}

/// The typed action that an action of `action_type` is created as.
pub open spec fn typed_kind(action_type: ActionType) -> TypedActionKind {
    match action_type {
        ActionType::Bool => TypedActionKind::Bool,
        ActionType::Float => TypedActionKind::F32,
        ActionType::Haptics => TypedActionKind::Haptic,
        ActionType::Pose => TypedActionKind::PoseF,
    }
}

/// Picks the typed action an action is created as; see [`typed_kind`].
pub fn typed_action_kind(action_type: ActionType) -> (r: TypedActionKind)
    ensures
        r == typed_kind(action_type),
{
    match action_type {
        ActionType::Bool => TypedActionKind::Bool,
        ActionType::Float => TypedActionKind::F32,
        ActionType::Haptics => TypedActionKind::Haptic,
        ActionType::Pose => TypedActionKind::PoseF,
    }
}

/// The subaction paths an action is created with, given the raw paths of the
/// hands: none for a single action, the hands' paths for one per hand.
pub fn subaction_paths(sidedness: ActionSidedness, hand_subpaths: &Vec<u64>) -> (r: Vec<u64>)
    ensures
        sidedness == ActionSidedness::Single ==> r@.len() == 0,
        sidedness == ActionSidedness::Double ==> r@ == hand_subpaths@,
{
    let mut out: Vec<u64> = Vec::new();
    if sidedness == ActionSidedness::Double {
        let mut i: usize = 0;
        while i < hand_subpaths.len()
            invariant
                i <= hand_subpaths@.len(),
                out@ == hand_subpaths@.take(i as int),
            decreases hand_subpaths@.len() - i,
        {
            out.push(hand_subpaths[i]);
            proof {
                assert(hand_subpaths@.take(i + 1) =~= hand_subpaths@.take(i as int).push(hand_subpaths@[i as int]));
            }
            i = i + 1;
        }
        proof {
            assert(hand_subpaths@.take(i as int) =~= hand_subpaths@);
        }
    }
    out
}

/// An action to create: its path, and what the path says of it.
#[derive(Clone, Copy, Debug, PartialEq, Eq, Structural)]
pub struct ActionDecl {
    pub path: ActionPath,
    pub sidedness: ActionSidedness,
    pub action_type: ActionType,
}

/// How one action is created: the typed action and its subaction paths.
#[derive(Debug)]
pub struct ActionCreation {
    pub path: ActionPath,
    pub kind: TypedActionKind,
    pub subaction_paths: Vec<u64>,
}

/// Whether `c` creates `decl` with the hands' paths `hands`.
pub open spec fn creates(c: ActionCreation, decl: ActionDecl, hands: Seq<u64>) -> bool {
    &&& c.path == decl.path
    &&& c.kind == typed_kind(decl.action_type)
    &&& c.subaction_paths@ == (if decl.sidedness == ActionSidedness::Double {
        hands
    } else {
        Seq::empty()
    })
}

/// How each action of a controller is created, in order; inserting them into
/// a map by path in this order gives the action map, where a path that comes
/// twice keeps its last creation.
pub fn plan_actions(actions: &Vec<ActionDecl>, hand_subpaths: &Vec<u64>) -> (r: Vec<ActionCreation>)
    ensures
        r@.len() == actions@.len(),
        forall|i: int| 0 <= i < r@.len() ==> creates(#[trigger] r@[i], actions@[i], hand_subpaths@),
{
    let mut out: Vec<ActionCreation> = Vec::new();
    let mut i: usize = 0;
    while i < actions.len()
        invariant
            i <= actions@.len(),
            out@.len() == i,
            forall|k: int| 0 <= k < i ==> creates(#[trigger] out@[k], actions@[k], hand_subpaths@),
        decreases actions@.len() - i,
    {
        let decl = actions[i];
        let paths = subaction_paths(decl.sidedness, hand_subpaths);
        proof {
            if decl.sidedness != ActionSidedness::Double {
                assert(paths@ =~= Seq::<u64>::empty());
            }
        }
        out.push(ActionCreation { path: decl.path, kind: typed_action_kind(decl.action_type), subaction_paths: paths });
        i = i + 1;
    }
    out
}

} // verus!
