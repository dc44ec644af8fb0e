//! Passthrough of the headset's cameras: whether the runtime supports it, and
//! how requests to resume and pause it move its state.

use vstd::prelude::*;

verus! {

/// Where passthrough stands.
#[derive(Clone, Copy, Debug, PartialEq, Eq, Structural, PartialOrd, Ord)]
pub enum XrPassthroughState {
    Unsupported,
    Running,
    Paused,
}

impl Default for XrPassthroughState {
    /// Unsupported.
    fn default() -> (r: Self)
        ensures
            r == XrPassthroughState::Unsupported,
    {
        XrPassthroughState::Unsupported
    }
}

/// The raw value of `PassthroughCapabilityFlagsFB::PASSTHROUGH_CAPABILITY`.
pub const PASSTHROUGH_CAPABILITY: u64 = 1;

/// Whether the passthrough capabilities that the system reports hold the
/// basic passthrough capability.
pub fn has_passthrough_capability(capabilities: u64) -> (r: bool)
    ensures
        r == (capabilities & PASSTHROUGH_CAPABILITY == PASSTHROUGH_CAPABILITY),
{
    capabilities & PASSTHROUGH_CAPABILITY == PASSTHROUGH_CAPABILITY
}

/// A raw OpenXR result as a `Result`: success codes are not negative.
pub fn cvt(raw: i32) -> (r: Result<i32, i32>)
    ensures
        raw >= 0 ==> r == Ok::<i32, i32>(raw),
        raw < 0 ==> r == Err::<i32, i32>(raw),
{
    if raw >= 0 {
        Ok(raw)
    } else {
        Err(raw)
    }
}

/// The state passthrough starts in: unsupported without an instance or without
/// the passthrough extension or when the system's capabilities could not be
/// read or lack passthrough, else paused.
pub open spec fn initial_state(has_instance: bool, fb_passthrough: bool, capability: Result<bool, i32>) -> XrPassthroughState {
    if has_instance && fb_passthrough && capability == Ok::<bool, i32>(true) {
        XrPassthroughState::Paused
    } else {
        XrPassthroughState::Unsupported
    }
}

/// Decides the state passthrough starts in, from whether there is an instance,
/// whether it enabled the passthrough extension, and what the capability query
/// returned (only looked at when both hold); see [`initial_state`].
pub fn check_passthrough_support(has_instance: bool, fb_passthrough: bool, capability: Result<bool, i32>) -> (r: XrPassthroughState)
    ensures
        r == initial_state(has_instance, fb_passthrough, capability),
{
    if !has_instance {
        return XrPassthroughState::Unsupported;
    }
    let supported = fb_passthrough && match capability {
        Ok(v) => v,
        Err(_) => false,
    };
    if supported {
        XrPassthroughState::Paused
    } else {
        XrPassthroughState::Unsupported
    }
}

/// Run condition of the passthrough setup: passthrough is supported.
pub fn setup_due(state: XrPassthroughState) -> (r: bool)
    ensures
        r == (state != XrPassthroughState::Unsupported),
{
    state != XrPassthroughState::Unsupported
}

/// A request to the passthrough layer.
#[derive(Clone, Copy, Debug, PartialEq, Eq, Structural)]
pub enum PassthroughRequest {
    Resume,
    Pause,
}

/// Whether a request is acted on in `state`: a resume when paused, a pause
/// when running.
pub open spec fn request_applies(state: XrPassthroughState, request: PassthroughRequest) -> bool {
    match request {
        PassthroughRequest::Resume => state == XrPassthroughState::Paused,
        PassthroughRequest::Pause => state == XrPassthroughState::Running,
    }
}

/// Run condition of the system that handles `request`; see
/// [`request_applies`].
pub fn passthrough_request_applies(state: XrPassthroughState, request: PassthroughRequest) -> (r: bool)
    ensures
        r == request_applies(state, request),
{
    match request {
        PassthroughRequest::Resume => state == XrPassthroughState::Paused,
        PassthroughRequest::Pause => state == XrPassthroughState::Running,
    }
}

/// The state after a request: when it applies and the layer accepted it,
/// running after a resume and paused after a pause; else unchanged.
pub open spec fn state_after(state: XrPassthroughState, request: PassthroughRequest, layer_ok: bool) -> XrPassthroughState {
    if request_applies(state, request) && layer_ok {
        match request {
            PassthroughRequest::Resume => XrPassthroughState::Running,
            PassthroughRequest::Pause => XrPassthroughState::Paused,
        }
    } else {
        state
    }
}

/// Computes [`state_after`], given whether the layer accepted the request.
pub fn state_after_request(state: XrPassthroughState, request: PassthroughRequest, layer_ok: bool) -> (r: XrPassthroughState)
    ensures
        r == state_after(state, request, layer_ok),
{
    if passthrough_request_applies(state, request) && layer_ok {
        match request {
            PassthroughRequest::Resume => XrPassthroughState::Running,
            PassthroughRequest::Pause => XrPassthroughState::Paused,
        }
    } else {
        state
    }
}

/// Requests never change whether passthrough is supported: an unsupported
/// state stays unsupported, and a supported one never becomes unsupported.
pub proof fn lemma_support_is_kept(state: XrPassthroughState, request: PassthroughRequest, layer_ok: bool)
    ensures
        (state == XrPassthroughState::Unsupported) <==> (state_after(state, request, layer_ok) == XrPassthroughState::Unsupported),
{
}

/// A resume followed by a pause, both accepted, brings paused passthrough
/// back to paused; a pause followed by a resume brings running passthrough
/// back to running.
pub proof fn lemma_resume_pause_round_trip(state: XrPassthroughState)
    ensures
        state == XrPassthroughState::Paused ==> state_after(
            state_after(state, PassthroughRequest::Resume, true),
            PassthroughRequest::Pause,
            true,
        ) == state,
        state == XrPassthroughState::Running ==> state_after(
            state_after(state, PassthroughRequest::Pause, true),
            PassthroughRequest::Resume,
            true,
        ) == state,
{
}

/// Passthrough never starts running; it starts paused exactly when there is
/// an instance with the passthrough extension whose system reported the
/// passthrough capability, and unsupported otherwise (a failed query counts
/// as no support).
pub proof fn lemma_initial_state(has_instance: bool, fb_passthrough: bool, capability: Result<bool, i32>)
    ensures
        initial_state(has_instance, fb_passthrough, capability) != XrPassthroughState::Running,
        initial_state(has_instance, fb_passthrough, capability) == XrPassthroughState::Paused <==> (has_instance
            && fb_passthrough && capability == Ok::<bool, i32>(true)),
        capability is Err ==> initial_state(has_instance, fb_passthrough, capability) == XrPassthroughState::Unsupported,
{
}

} // verus!
