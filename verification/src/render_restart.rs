//! Turning XR on and off while the app runs: requests, the current state, and
//! the state that the next render update moves to.

use vstd::prelude::*;

verus! {

/// A request to turn XR on or off.
#[derive(Clone, Copy, Debug, PartialEq, Eq, Structural)]
pub enum XrEnableRequest {
    TryEnable,
    TryDisable,
}

/// Whether XR is on.
#[derive(Clone, Copy, Debug, PartialEq, Eq, Structural)]
pub enum XrEnableStatus {
    Enabled,
    Disabled,
}

/// The state that XR is to be moved to.
#[derive(Clone, Copy, Debug, PartialEq, Eq, Structural)]
pub enum XrNextEnabledState {
    Enabled,
    Disabled,
}

/// Whether `request` asks for the state XR is already in.
pub open spec fn is_redundant(request: XrEnableRequest, status: Option<XrEnableStatus>) -> bool {
    ||| request == XrEnableRequest::TryEnable && status == Some(XrEnableStatus::Enabled)
    ||| request == XrEnableRequest::TryDisable && status == Some(XrEnableStatus::Disabled)
}

/// The state that `request` asks for.
pub open spec fn requested_state(request: XrEnableRequest) -> XrNextEnabledState {
    match request {
        XrEnableRequest::TryEnable => XrNextEnabledState::Enabled,
        XrEnableRequest::TryDisable => XrNextEnabledState::Disabled,
    }
}

/// The next state decided from the pending requests: only the first request
/// counts; it is ignored when it asks for the state XR is already in.
pub open spec fn next_state_of(requests: Seq<XrEnableRequest>, status: Option<XrEnableStatus>) -> Option<XrNextEnabledState> {
    if requests.len() == 0 || is_redundant(requests[0], status) {
        None
    } else {
        Some(requested_state(requests[0]))
    }
}

/// Decides the state to move XR to from the pending requests and the current
/// status; see [`next_state_of`]. `None` leaves the next state unchanged.
pub fn decide_next_xr_state(requests: &Vec<XrEnableRequest>, status: Option<XrEnableStatus>) -> (r: Option<XrNextEnabledState>)
    ensures
        r == next_state_of(requests@, status),
{
    if requests.len() == 0 {
        return None;
    }
    let request = requests[0];
    match (request, status) {
        (XrEnableRequest::TryEnable, Some(XrEnableStatus::Enabled)) => {
            return None;
        },
        (XrEnableRequest::TryDisable, Some(XrEnableStatus::Disabled)) => {
            return None;
        },
        _ => {},
    }
    match request {
        XrEnableRequest::TryEnable => Some(XrNextEnabledState::Enabled),
        XrEnableRequest::TryDisable => Some(XrNextEnabledState::Disabled),
    }
}

/// A decided next state never restates the current one: when XR is enabled
/// the decision is never to enable it, and when disabled never to disable it.
pub proof fn lemma_decision_changes_state(requests: Seq<XrEnableRequest>, status: Option<XrEnableStatus>)
    ensures
        status == Some(XrEnableStatus::Enabled) ==> next_state_of(requests, status) != Some(XrNextEnabledState::Enabled),
        status == Some(XrEnableStatus::Disabled) ==> next_state_of(requests, status) != Some(XrNextEnabledState::Disabled),
{
}

/// Run condition of the systems that need XR on.
pub fn xr_only(status: Option<XrEnableStatus>) -> (r: bool)
    ensures
        r == (status == Some(XrEnableStatus::Enabled)),
{
    match status {
        Some(XrEnableStatus::Enabled) => true,
        _ => false,
    }
}

/// Run condition of the XR cleanup: XR is to be turned off.
pub fn cleanup_due(next: Option<XrNextEnabledState>) -> (r: bool)
    ensures
        r == (next == Some(XrNextEnabledState::Disabled)),
{
    match next {
        Some(XrNextEnabledState::Disabled) => true,
        _ => false,
    }
}

/// Whether the session is asked to exit during cleanup: XR is off and a
/// session exists.
pub fn session_exit_due(status: Option<XrEnableStatus>, has_session: bool) -> (r: bool)
    ensures
        r == (status == Some(XrEnableStatus::Disabled) && has_session),
{
    match status {
        Some(XrEnableStatus::Disabled) => has_session,
        _ => false,
    }
}

/// Only the first pending request counts: it decides alone, a request to
/// enable asks for the enabled state and one to disable for the disabled
/// state, and it is ignored only when XR is already in that state.
pub proof fn lemma_first_request_decides(requests: Seq<XrEnableRequest>, status: Option<XrEnableStatus>)
    requires
        requests.len() > 0,
    ensures
        next_state_of(requests, status) == next_state_of(seq![requests[0]], status),
        requests[0] == XrEnableRequest::TryEnable ==> next_state_of(requests, status) == if status == Some(
            XrEnableStatus::Enabled,
        ) {
            None
        } else {
            Some(XrNextEnabledState::Enabled)
        },
        requests[0] == XrEnableRequest::TryDisable ==> next_state_of(requests, status) == if status == Some(
            XrEnableStatus::Disabled,
        ) {
            None
        } else {
            Some(XrNextEnabledState::Disabled)
        },
{
}

} // verus!
