//! The viewer session's decision kernel.
//!
//! One session runs per connected viewer: subscribe to the hub, then
//! loop — wait for the next published value, attempt to deliver it to
//! the viewer — until a delivery fails, the viewer's connection
//! closes, or the hub itself closes. The waiting and the writing are
//! the runtime's business; every decision the loop takes is this
//! step function, so the session's whole lifecycle — stream until the
//! first failure, then stop for good, with no retry — is pinned here.

use vstd::prelude::*;

verus! {

/// The session lifecycle: delivering values, or done for good.
pub enum SessionState {
    /// Subscribed and delivering: the one state that waits.
    Streaming,
    /// Delivery failed, the viewer left, or the hub closed; the
    /// subscription is released and never resumed — a viewer that
    /// wants more must reconnect, and only future values reach the
    /// new session.
    Closed,
}

/// What the runtime observed while the session waited or delivered.
pub enum SessionEvent {
    /// The next published value arrived from the hub.
    Arrived(String),
    /// The session fell behind the hub's backlog; the oldest pending
    /// values were dropped for it.
    LagNoticed,
    /// The hub closed: no value will ever arrive again.
    HubClosed,
    /// The last delivery to the viewer succeeded.
    DeliverySucceeded,
    /// The last delivery to the viewer failed (connection reset,
    /// write error).
    DeliveryFailed,
    /// The viewer's connection closed while the session was waiting.
    ViewerGone,
}

/// What the runtime must do next on the session's behalf.
pub enum SessionAction {
    /// Write this value to the viewer, then report how it went.
    Deliver(String),
    /// Nothing to write; keep waiting for the next event.
    Continue,
    /// Release the subscription and end the session.
    Stop,
}

/// One decision of the viewer session: from its state and the event
/// observed to its next state and the action owed. A value arriving
/// while streaming is delivered as it is; a lag only skips values,
/// the session streams on; a failed delivery, a gone viewer or a
/// closed hub closes the session at once; and a closed session stays
/// closed whatever else happens.
pub fn session_step(state: SessionState, event: SessionEvent) -> (r: (SessionState, SessionAction))
    ensures
        (match (state, event) {
            (SessionState::Closed, _) => r.0 is Closed && r.1 is Stop,
            (SessionState::Streaming, SessionEvent::Arrived(v)) => r.0 is Streaming && (match r.1 {
                SessionAction::Deliver(d) => d@ == v@,
                _ => false,
            }),
            (SessionState::Streaming, SessionEvent::LagNoticed) => r.0 is Streaming
                && r.1 is Continue,
            (SessionState::Streaming, SessionEvent::HubClosed) => r.0 is Closed && r.1 is Stop,
            (SessionState::Streaming, SessionEvent::DeliverySucceeded) => r.0 is Streaming
                && r.1 is Continue,
            (SessionState::Streaming, SessionEvent::DeliveryFailed) => r.0 is Closed
                && r.1 is Stop,
            (SessionState::Streaming, SessionEvent::ViewerGone) => r.0 is Closed && r.1 is Stop,
        }),
{
    match state {
        SessionState::Closed => (SessionState::Closed, SessionAction::Stop),
        SessionState::Streaming => match event {
            SessionEvent::Arrived(v) => (SessionState::Streaming, SessionAction::Deliver(v)),
            SessionEvent::LagNoticed => (SessionState::Streaming, SessionAction::Continue),
            SessionEvent::HubClosed => (SessionState::Closed, SessionAction::Stop),
            SessionEvent::DeliverySucceeded => (SessionState::Streaming, SessionAction::Continue),
            SessionEvent::DeliveryFailed => (SessionState::Closed, SessionAction::Stop),
            SessionEvent::ViewerGone => (SessionState::Closed, SessionAction::Stop),
        },
    }
}

} // verus!
