use bevy_oxr::passthrough::{
    check_passthrough_support, cvt, has_passthrough_capability, passthrough_request_applies, setup_due,
    state_after_request, PassthroughRequest, XrPassthroughState,
};
use bevy_oxr::render_restart::{
    cleanup_due, decide_next_xr_state, session_exit_due, xr_only as xr_enabled_only, XrEnableRequest, XrEnableStatus,
    XrNextEnabledState,
};
use bevy_oxr::xr_init::{
    handle_polled_event, next_status, start_session_check, xr_after_wait_only, xr_only, xr_render_only,
    ExitAppOnSessionExit, PollAction, PolledEvent, StartSessionCheck, XrHasWaited, XrShouldRender, XrStatus,
    XrStatusEvent, SESSION_STATE_READY, SESSION_STATE_STOPPING,
};

#[test]
fn session_starts_only_when_disabled() {
    assert_eq!(start_session_check(XrStatus::Disabled), StartSessionCheck::Start);
    assert_eq!(start_session_check(XrStatus::NoInstance), StartSessionCheck::NoInstance);
    assert_eq!(start_session_check(XrStatus::Enabled), StartSessionCheck::AlreadyRunning);
    assert_eq!(start_session_check(XrStatus::Enabling), StartSessionCheck::AlreadyRunning);
    assert_eq!(start_session_check(XrStatus::Disabling), StartSessionCheck::Stopping);
}

#[test]
fn status_walks_through_a_session() {
    let s = XrStatus::Disabled;
    let s = next_status(s, XrStatusEvent::StartRequested { started: true });
    assert_eq!(s, XrStatus::Enabling);
    let s = next_status(s, XrStatusEvent::StartRequested { started: true });
    assert_eq!(s, XrStatus::Enabling);
    let s = next_status(s, XrStatusEvent::SessionReady);
    assert_eq!(s, XrStatus::Enabled);
    let s = next_status(s, XrStatusEvent::StopRequested);
    assert_eq!(s, XrStatus::Disabling);
    let s = next_status(s, XrStatusEvent::SessionStopping);
    assert_eq!(s, XrStatus::Disabled);
    assert_eq!(next_status(XrStatus::Disabled, XrStatusEvent::StartRequested { started: false }), XrStatus::Disabled);
    assert_eq!(next_status(XrStatus::NoInstance, XrStatusEvent::StartRequested { started: true }), XrStatus::NoInstance);
    assert_eq!(next_status(XrStatus::Disabled, XrStatusEvent::SetupDone), XrStatus::Enabled);
    assert_eq!(next_status(XrStatus::Enabled, XrStatusEvent::CleanupDone), XrStatus::Disabled);
}

#[test]
fn polled_events() {
    assert_eq!(
        handle_polled_event(XrStatus::Enabling, PolledEvent::SessionStateChanged(SESSION_STATE_READY)),
        (XrStatus::Enabled, PollAction::BeginSession)
    );
    assert_eq!(
        handle_polled_event(XrStatus::Enabled, PolledEvent::SessionStateChanged(SESSION_STATE_STOPPING)),
        (XrStatus::Disabled, PollAction::EndSession)
    );
    assert_eq!(
        handle_polled_event(XrStatus::Enabled, PolledEvent::SessionStateChanged(5)),
        (XrStatus::Enabled, PollAction::Nothing)
    );
    assert_eq!(
        handle_polled_event(XrStatus::Enabled, PolledEvent::EventsLost(3)),
        (XrStatus::Enabled, PollAction::WarnEventsLost(3))
    );
    assert_eq!(handle_polled_event(XrStatus::Disabled, PolledEvent::Other), (XrStatus::Disabled, PollAction::Nothing));
}

#[test]
fn run_conditions_and_defaults() {
    assert!(xr_only(XrStatus::Enabled));
    assert!(!xr_only(XrStatus::Enabling));
    assert!(xr_render_only(XrShouldRender(true)));
    assert!(!xr_render_only(XrShouldRender::default()));
    assert!(xr_after_wait_only(XrHasWaited(true)));
    assert!(!xr_after_wait_only(XrHasWaited::default()));
    assert_eq!(ExitAppOnSessionExit::default(), ExitAppOnSessionExit::OnlyOnExit);
}

#[test]
fn enable_requests() {
    assert_eq!(decide_next_xr_state(&vec![], Some(XrEnableStatus::Disabled)), None);
    assert_eq!(decide_next_xr_state(&vec![XrEnableRequest::TryEnable], Some(XrEnableStatus::Enabled)), None);
    assert_eq!(decide_next_xr_state(&vec![XrEnableRequest::TryDisable], Some(XrEnableStatus::Disabled)), None);
    assert_eq!(
        decide_next_xr_state(&vec![XrEnableRequest::TryEnable, XrEnableRequest::TryDisable], Some(XrEnableStatus::Disabled)),
        Some(XrNextEnabledState::Enabled)
    );
    assert_eq!(decide_next_xr_state(&vec![XrEnableRequest::TryDisable], None), Some(XrNextEnabledState::Disabled));
    assert_eq!(decide_next_xr_state(&vec![XrEnableRequest::TryEnable], None), Some(XrNextEnabledState::Enabled));
    assert!(xr_enabled_only(Some(XrEnableStatus::Enabled)));
    assert!(!xr_enabled_only(None));
    assert!(cleanup_due(Some(XrNextEnabledState::Disabled)));
    assert!(!cleanup_due(Some(XrNextEnabledState::Enabled)));
    assert!(session_exit_due(Some(XrEnableStatus::Disabled), true));
    assert!(!session_exit_due(Some(XrEnableStatus::Disabled), false));
    assert!(!session_exit_due(Some(XrEnableStatus::Enabled), true));
}

#[test]
fn passthrough_support() {
    assert_eq!(XrPassthroughState::default(), XrPassthroughState::Unsupported);
    assert_eq!(check_passthrough_support(false, true, Ok(true)), XrPassthroughState::Unsupported);
    assert_eq!(check_passthrough_support(true, false, Ok(true)), XrPassthroughState::Unsupported);
    assert_eq!(check_passthrough_support(true, true, Ok(false)), XrPassthroughState::Unsupported);
    assert_eq!(check_passthrough_support(true, true, Err(-1)), XrPassthroughState::Unsupported);
    assert_eq!(check_passthrough_support(true, true, Ok(true)), XrPassthroughState::Paused);
    assert!(has_passthrough_capability(1));
    assert!(has_passthrough_capability(7));
    assert!(!has_passthrough_capability(6));
    assert_eq!(cvt(0), Ok(0));
    assert_eq!(cvt(3), Ok(3));
    assert_eq!(cvt(-2), Err(-2));
    assert!(setup_due(XrPassthroughState::Paused));
    assert!(!setup_due(XrPassthroughState::Unsupported));
}

#[test]
fn passthrough_requests() {
    assert!(passthrough_request_applies(XrPassthroughState::Paused, PassthroughRequest::Resume));
    assert!(!passthrough_request_applies(XrPassthroughState::Running, PassthroughRequest::Resume));
    assert_eq!(state_after_request(XrPassthroughState::Paused, PassthroughRequest::Resume, true), XrPassthroughState::Running);
    assert_eq!(state_after_request(XrPassthroughState::Paused, PassthroughRequest::Resume, false), XrPassthroughState::Paused);
    assert_eq!(state_after_request(XrPassthroughState::Running, PassthroughRequest::Pause, true), XrPassthroughState::Paused);
    assert_eq!(state_after_request(XrPassthroughState::Running, PassthroughRequest::Resume, true), XrPassthroughState::Running);
    assert_eq!(state_after_request(XrPassthroughState::Unsupported, PassthroughRequest::Resume, true), XrPassthroughState::Unsupported);
    assert_eq!(state_after_request(XrPassthroughState::Unsupported, PassthroughRequest::Pause, true), XrPassthroughState::Unsupported);
    assert_eq!(state_after_request(state_after_request(XrPassthroughState::Paused, PassthroughRequest::Resume, true), PassthroughRequest::Pause, true), XrPassthroughState::Paused);
}
