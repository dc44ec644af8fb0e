//! Actions declared as entities: the binding suggestions made for each action,
//! and the state kept for boolean actions.

use vstd::prelude::*;

verus! {

/// A binding declared for an action: an input path of an interaction
/// profile.
#[derive(Debug)]
pub struct XRUtilsBinding {
    pub profile: String,
    pub binding: String,
}

/// A suggestion to bind one action to input paths of an interaction profile.
#[derive(Debug)]
pub struct ActionBindingSuggestion {
    /// The raw handle of the action.
    pub action: u64,
    pub interaction_profile: String,
    pub bindings: Vec<String>,
}

/// Whether `s` suggests binding `action` to the path of `b`, alone.
pub open spec fn suggests(s: ActionBindingSuggestion, action: u64, b: XRUtilsBinding) -> bool {
    &&& s.action == action
    &&& s.interaction_profile@ == b.profile@
    &&& s.bindings@.len() == 1
    &&& s.bindings@[0]@ == b.binding@
}

/// The suggestions made for an action: one per declared binding, in order,
/// each with the binding's profile and its path alone.
pub fn binding_suggestions(action: u64, bindings: &Vec<XRUtilsBinding>) -> (r: Vec<ActionBindingSuggestion>)
    ensures
        r@.len() == bindings@.len(),
        forall|i: int| 0 <= i < r@.len() ==> suggests(#[trigger] r@[i], action, bindings@[i]),
{
    let mut out: Vec<ActionBindingSuggestion> = Vec::new();
    let mut i: usize = 0;
    while i < bindings.len()
        invariant
            i <= bindings@.len(),
            out@.len() == i,
            forall|k: int| 0 <= k < i ==> suggests(#[trigger] out@[k], action, bindings@[k]),
        decreases bindings@.len() - i,
    {
        let b = &bindings[i];
        let mut paths: Vec<String> = Vec::new();
        paths.push(b.binding.clone());
        out.push(ActionBindingSuggestion { action, interaction_profile: b.profile.clone(), bindings: paths });
        i = i + 1;
    }
    out
}

/// A declared action, with the raw handle of the action created for it and
/// the bindings declared under it.
#[derive(Debug)]
pub struct DeclaredAction {
    pub handle: u64,
    pub bindings: Vec<XRUtilsBinding>,
}

/// A declared action set, with the raw handle of the set created for it and
/// the actions declared under it.
#[derive(Debug)]
pub struct DeclaredActionSet {
    pub handle: u64,
    pub actions: Vec<DeclaredAction>,
}

/// An event written while setting actions up.
#[derive(Debug)]
pub enum ActionSetupEvent {
    /// Suggest a binding.
    Suggest(ActionBindingSuggestion),
    /// Attach the action set with this raw handle to the session.
    Attach(u64),
}

/// An [`ActionSetupEvent`] as plain values; a suggestion is seen with its
/// first path.
pub enum SetupEventView {
    Suggest { action: u64, profile: Seq<char>, binding: Seq<char> },
    Attach(u64),
}

/// How `e` is seen in contracts.
pub open spec fn event_view(e: ActionSetupEvent) -> SetupEventView {
    match e {
        ActionSetupEvent::Suggest(s) => SetupEventView::Suggest {
            action: s.action,
            profile: s.interaction_profile@,
            binding: s.bindings@[0]@,
        },
        ActionSetupEvent::Attach(h) => SetupEventView::Attach(h),
    }
}

/// How a sequence of events is seen in contracts.
pub open spec fn events_view(events: Seq<ActionSetupEvent>) -> Seq<SetupEventView> {
    events.map_values(|e: ActionSetupEvent| event_view(e))
}

/// The suggestions of one action: one per binding, in order.
pub open spec fn binding_events(action: u64, bindings: Seq<XRUtilsBinding>) -> Seq<SetupEventView> {
    Seq::new(
        bindings.len(),
        |i: int| SetupEventView::Suggest { action, profile: bindings[i].profile@, binding: bindings[i].binding@ },
    )
}

/// The suggestions of a set's actions, action after action.
pub open spec fn action_events(actions: Seq<DeclaredAction>) -> Seq<SetupEventView>
    decreases actions.len(),
{
    if actions.len() == 0 {
        Seq::empty()
    } else {
        action_events(actions.drop_last()) + binding_events(actions.last().handle, actions.last().bindings@)
    }
}

/// The events of setting up `sets`: for each set in order, the suggestions
/// of its actions, then the set's attachment; nothing else.
pub open spec fn setup_events(sets: Seq<DeclaredActionSet>) -> Seq<SetupEventView>
    decreases sets.len(),
{
    if sets.len() == 0 {
        Seq::empty()
    } else {
        setup_events(sets.drop_last()) + action_events(sets.last().actions@) + seq![
            SetupEventView::Attach(sets.last().handle),
        ]
    }
}

/// The events written while setting up the declared action sets; see
/// [`setup_events`]. Each suggestion names exactly one path.
pub fn action_setup_events(sets: &Vec<DeclaredActionSet>) -> (r: Vec<ActionSetupEvent>)
    ensures
        events_view(r@) == setup_events(sets@),
        forall|i: int| 0 <= i < r@.len() ==> (#[trigger] r@[i] matches ActionSetupEvent::Suggest(s) ==> s.bindings@.len() == 1),
{
    let mut out: Vec<ActionSetupEvent> = Vec::new();
    let mut i: usize = 0;
    proof {
        assert(sets@.take(0) =~= Seq::<DeclaredActionSet>::empty());
        assert(events_view(out@) =~= setup_events(sets@.take(0)));
    }
    while i < sets.len()
        invariant
            i <= sets@.len(),
            events_view(out@) == setup_events(sets@.take(i as int)),
            forall|k: int| 0 <= k < out@.len() ==> (#[trigger] out@[k] matches ActionSetupEvent::Suggest(s) ==> s.bindings@.len() == 1),
        decreases sets@.len() - i,
    {
        let set = &sets[i];
        let ghost before = events_view(out@);
        let mut j: usize = 0;
        proof {
            assert(set.actions@.take(0) =~= Seq::<DeclaredAction>::empty());
            assert(events_view(out@) =~= before + action_events(set.actions@.take(0)));
        }
        while j < set.actions.len()
            invariant
                j <= set.actions@.len(),
                events_view(out@) == before + action_events(set.actions@.take(j as int)),
                forall|k: int| 0 <= k < out@.len() ==> (#[trigger] out@[k] matches ActionSetupEvent::Suggest(s) ==> s.bindings@.len() == 1),
            decreases set.actions@.len() - j,
        {
            let action = &set.actions[j];
            let suggestions = binding_suggestions(action.handle, &action.bindings);
            let ghost mid = events_view(out@);
            let mut k: usize = 0;
            let mut rest = suggestions;
            let ghost all = rest@;
            while rest.len() > 0
                invariant
                    k + rest@.len() == all.len(),
                    rest@ == all.skip(k as int),
                    all.len() == action.bindings@.len(),
                    action.bindings@.len() == action.bindings.len(),
                    forall|m: int| 0 <= m < all.len() ==> suggests(#[trigger] all[m], action.handle, action.bindings@[m]),
                    events_view(out@) == mid + binding_events(action.handle, action.bindings@.take(k as int)),
                    forall|m: int| 0 <= m < out@.len() ==> (#[trigger] out@[m] matches ActionSetupEvent::Suggest(s) ==> s.bindings@.len() == 1),
                decreases rest@.len(),
            {
                let s = rest.remove(0);
                proof {
                    assert(s == all[k as int]);
                    assert(suggests(all[k as int], action.handle, action.bindings@[k as int]));
                    assert(rest@ =~= all.skip(k + 1));
                }
                let ghost prev = out@;
                out.push(ActionSetupEvent::Suggest(s));
                proof {
                    assert(events_view(out@) =~= events_view(prev).push(event_view(ActionSetupEvent::Suggest(s))));
                    assert(binding_events(action.handle, action.bindings@.take(k + 1)) =~= binding_events(
                        action.handle,
                        action.bindings@.take(k as int),
                    ).push(event_view(ActionSetupEvent::Suggest(s))));
                }
                k = k + 1;
            }
            proof {
                assert(action.bindings@.take(k as int) =~= action.bindings@);
                let acts = set.actions@.take(j + 1);
                assert(acts.drop_last() =~= set.actions@.take(j as int));
                assert(acts.last() == *action);
            }
            j = j + 1;
        }
        proof {
            assert(set.actions@.take(j as int) =~= set.actions@);
        }
        let ghost prev = out@;
        out.push(ActionSetupEvent::Attach(set.handle));
        proof {
            assert(events_view(out@) =~= events_view(prev).push(SetupEventView::Attach(set.handle)));
            let ss = sets@.take(i + 1);
            assert(ss.drop_last() =~= sets@.take(i as int));
            assert(ss.last() == *set);
        }
        i = i + 1;
    }
    proof {
        assert(sets@.take(sets@.len() as int) =~= sets@);
    }
    out
}

/// The state of a boolean action, as last synced.
#[derive(Clone, Copy, Debug, PartialEq, Eq, Structural)]
pub struct ActionStateBool {
    pub current_state: bool,
    pub changed_since_last_sync: bool,
    /// When the state last changed, in nanoseconds.
    pub last_change_time: i64,
    pub is_active: bool,
}

impl ActionStateBool {
    /// The state of an action before its first sync: off, unchanged, changed
    /// at the earliest time, inactive.
    pub fn initial() -> (r: Self)
        ensures
            r == (ActionStateBool {
                current_state: false,
                changed_since_last_sync: false,
                last_change_time: i64::MIN,
                is_active: false,
            }),
    {
        ActionStateBool { current_state: false, changed_since_last_sync: false, last_change_time: i64::MIN, is_active: false }
    }

    /// The state after a sync: what the runtime reported, or the state as it
    /// was when the runtime could not report it.
    pub fn synced(self, reported: Result<ActionStateBool, i32>) -> (r: Self)
        ensures
            r == match reported {
                Ok(s) => s,
                Err(_) => self,
            },
    {
        match reported {
            Ok(s) => s,
            Err(_) => self,
        }
    }
}

} // verus!
