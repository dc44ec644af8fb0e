//! The lifecycle of an XR session: which state the app is in, and what each
//! request and runtime event does to it.

use vstd::prelude::*;

verus! {

/// Where the app stands with its XR session.
#[derive(Clone, Copy, Debug, PartialEq, Eq, Structural)]
pub enum XrStatus {
    NoInstance,
    Enabled,
    Enabling,
    Disabled,
    Disabling,
}

/// Whether the frame is to be rendered to the headset.
#[derive(Clone, Copy, Debug, PartialEq, Eq, Structural)]
pub struct XrShouldRender(pub bool);

impl Default for XrShouldRender {
    /// Not rendering.
    fn default() -> (r: Self)
        ensures
            r == XrShouldRender(false),
    {
        XrShouldRender(false)
    }
}

/// Whether the frame has waited on the runtime.
#[derive(Clone, Copy, Debug, PartialEq, Eq, Structural)]
pub struct XrHasWaited(pub bool);

impl Default for XrHasWaited {
    /// Not waited.
    fn default() -> (r: Self)
        ensures
            r == XrHasWaited(false),
    {
        XrHasWaited(false)
    }
}

/// Run condition of the systems that need a running session.
pub fn xr_only(status: XrStatus) -> (r: bool)
    ensures
        r == (status == XrStatus::Enabled),
{
    status == XrStatus::Enabled
}

/// Run condition of the systems that render to the headset.
pub fn xr_render_only(should_render: XrShouldRender) -> (r: bool)
    ensures
        r == should_render.0,
{
    should_render.0
}

/// Run condition of the systems that run once the frame has waited.
pub fn xr_after_wait_only(has_waited: XrHasWaited) -> (r: bool)
    ensures
        r == has_waited.0,
{
    has_waited.0
}

/// What the app does when the runtime ends or loses the session.
#[derive(Clone, Copy, Debug, PartialEq, Eq, Structural)]
pub enum ExitAppOnSessionExit {
    /// Restart the session when it is lost.
    OnlyOnExit,
    /// Always exit the app.
    Always,
    /// Keep the app open when the session wants to exit or is lost.
    Never,
}

impl Default for ExitAppOnSessionExit {
    /// Restart the session when it is lost.
    fn default() -> (r: Self)
        ensures
            r == ExitAppOnSessionExit::OnlyOnExit,
    {
        ExitAppOnSessionExit::OnlyOnExit
    }
}

/// The answer to a request to start a session.
#[derive(Clone, Copy, Debug, PartialEq, Eq, Structural)]
pub enum StartSessionCheck {
    /// Start it.
    Start,
    /// Ignored: there is no instance to start it with.
    NoInstance,
    /// Ignored: a session already runs or is starting.
    AlreadyRunning,
    /// Ignored: the session is stopping.
    Stopping,
}

/// The answer to a request to start a session: it starts only from
/// [`XrStatus::Disabled`].
pub open spec fn start_check(status: XrStatus) -> StartSessionCheck {
    match status {
        XrStatus::Disabled => StartSessionCheck::Start,
        XrStatus::NoInstance => StartSessionCheck::NoInstance,
        XrStatus::Enabled | XrStatus::Enabling => StartSessionCheck::AlreadyRunning,
        XrStatus::Disabling => StartSessionCheck::Stopping,
    }
}

/// Decides whether a request to start a session in `status` goes ahead; see
/// [`start_check`].
pub fn start_session_check(status: XrStatus) -> (r: StartSessionCheck)
    ensures
        r == start_check(status),
{
    match status {
        XrStatus::Disabled => StartSessionCheck::Start,
        XrStatus::NoInstance => StartSessionCheck::NoInstance,
        XrStatus::Enabled | XrStatus::Enabling => StartSessionCheck::AlreadyRunning,
        XrStatus::Disabling => StartSessionCheck::Stopping,
    }
}

/// Something that changes where the app stands with its session.
#[derive(Clone, Copy, Debug, PartialEq, Eq, Structural)]
pub enum XrStatusEvent {
    /// A start was requested; `started` tells whether the session was created.
    StartRequested { started: bool },
    /// A stop was requested.
    StopRequested,
    /// The session's setup schedules ran.
    SetupDone,
    /// The session's cleanup schedules ran.
    CleanupDone,
    /// The runtime reported the session ready, and it was begun.
    SessionReady,
    /// The runtime reported the session stopping, and it was ended.
    SessionStopping,
}

/// The status after `event`: a start moves a disabled app to enabling when the
/// session was created, and leaves any other state as it is; a stop moves to
/// disabling; setup and a ready session move to enabled; cleanup and a
/// stopping session move to disabled.
pub open spec fn status_after(status: XrStatus, event: XrStatusEvent) -> XrStatus {
    match event {
        XrStatusEvent::StartRequested { started } => if status == XrStatus::Disabled && started {
            XrStatus::Enabling
        } else {
            status
        },
        XrStatusEvent::StopRequested => XrStatus::Disabling,
        XrStatusEvent::SetupDone => XrStatus::Enabled,
        XrStatusEvent::CleanupDone => XrStatus::Disabled,
        XrStatusEvent::SessionReady => XrStatus::Enabled,
        XrStatusEvent::SessionStopping => XrStatus::Disabled,
    }
}

/// Computes [`status_after`].
pub fn next_status(status: XrStatus, event: XrStatusEvent) -> (r: XrStatus)
    ensures
        r == status_after(status, event),
{
    match event {
        XrStatusEvent::StartRequested { started } => {
            if start_session_check(status) == StartSessionCheck::Start && started {
                XrStatus::Enabling
            } else {
                status
            }
        },
        XrStatusEvent::StopRequested => XrStatus::Disabling,
        XrStatusEvent::SetupDone => XrStatus::Enabled,
        XrStatusEvent::CleanupDone => XrStatus::Disabled,
        XrStatusEvent::SessionReady => XrStatus::Enabled,
        XrStatusEvent::SessionStopping => XrStatus::Disabled,
    }
}

/// A session starts only from a disabled app: whenever an event moves the
/// app into [`XrStatus::Enabling`] from another state, the app was disabled
/// and the event was a start that created the session.
pub proof fn lemma_enabling_only_from_disabled(status: XrStatus, event: XrStatusEvent)
    requires
        status != XrStatus::Enabling,
        status_after(status, event) == XrStatus::Enabling,
    ensures
        status == XrStatus::Disabled,
        event == (XrStatusEvent::StartRequested { started: true }),
{
}

/// A request to start that is refused, or whose session could not be
/// created, leaves the status as it was.
pub proof fn lemma_refused_start_keeps_status(status: XrStatus, started: bool)
    requires
        start_check(status) != StartSessionCheck::Start || !started,
    ensures
        status_after(status, XrStatusEvent::StartRequested { started }) == status,
{
}

/// The raw value of OpenXR's `SessionState::READY`.
pub const SESSION_STATE_READY: i32 = 2;

/// The raw value of OpenXR's `SessionState::STOPPING`.
pub const SESSION_STATE_STOPPING: i32 = 6;

/// An event polled from the runtime, as plain values.
#[derive(Clone, Copy, Debug, PartialEq, Eq, Structural)]
pub enum PolledEvent {
    /// The session entered the state with this raw value.
    SessionStateChanged(i32),
    /// The runtime dropped this many events.
    EventsLost(u32),
    /// Any other event.
    Other,
}

/// What the app does in answer to a polled event.
#[derive(Clone, Copy, Debug, PartialEq, Eq, Structural)]
pub enum PollAction {
    /// Begin the session with the primary stereo view configuration.
    BeginSession,
    /// End the session.
    EndSession,
    /// Warn that this many events were lost.
    WarnEventsLost(u32),
    /// Nothing.
    Nothing,
}

/// The answer to a polled event: a ready session is begun and the app is
/// enabled; a stopping session is ended and the app is disabled; lost events
/// are reported; anything else changes nothing.
pub open spec fn poll_answer(status: XrStatus, event: PolledEvent) -> (XrStatus, PollAction) {
    match event {
        PolledEvent::SessionStateChanged(state) => if state == SESSION_STATE_READY {
            (XrStatus::Enabled, PollAction::BeginSession)
        } else if state == SESSION_STATE_STOPPING {
            (XrStatus::Disabled, PollAction::EndSession)
        } else {
            (status, PollAction::Nothing)
        },
        PolledEvent::EventsLost(n) => (status, PollAction::WarnEventsLost(n)),
        PolledEvent::Other => (status, PollAction::Nothing),
    }
}

/// Decides what a polled event does; see [`poll_answer`].
pub fn handle_polled_event(status: XrStatus, event: PolledEvent) -> (r: (XrStatus, PollAction))
    ensures
        r == poll_answer(status, event),
{
    match event {
        PolledEvent::SessionStateChanged(state) => {
            if state == SESSION_STATE_READY {
                (next_status(status, XrStatusEvent::SessionReady), PollAction::BeginSession)
            } else if state == SESSION_STATE_STOPPING {
                (next_status(status, XrStatusEvent::SessionStopping), PollAction::EndSession)
            } else {
                (status, PollAction::Nothing)
            }
        },
        PolledEvent::EventsLost(n) => (status, PollAction::WarnEventsLost(n)),
        PolledEvent::Other => (status, PollAction::Nothing),
    }
}

/// How the app answers the runtime's events, on raw session states: the
/// session is begun exactly when it becomes ready (raw 2), which enables the
/// app, and ended exactly when it starts stopping (raw 6), which disables it;
/// any other state, and any other event, leaves the status alone and does
/// nothing but report lost events.
pub proof fn lemma_poll_answers(status: XrStatus, event: PolledEvent)
    ensures
        poll_answer(status, event).1 == PollAction::BeginSession <==> event == PolledEvent::SessionStateChanged(2),
        poll_answer(status, event).1 == PollAction::EndSession <==> event == PolledEvent::SessionStateChanged(6),
        event == PolledEvent::SessionStateChanged(2) ==> poll_answer(status, event).0 == XrStatus::Enabled,
        event == PolledEvent::SessionStateChanged(6) ==> poll_answer(status, event).0 == XrStatus::Disabled,
        event matches PolledEvent::SessionStateChanged(s) && s != 2 && s != 6 ==> poll_answer(status, event) == (
            status,
            PollAction::Nothing,
        ),
        event matches PolledEvent::EventsLost(n) ==> poll_answer(status, event) == (status, PollAction::WarnEventsLost(n)),
        event == PolledEvent::Other ==> poll_answer(status, event) == (status, PollAction::Nothing),
{
}

} // verus!
