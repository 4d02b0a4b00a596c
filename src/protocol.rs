use vstd::prelude::*;

verus! {

/// An operation submitted by the consumer; its payload is opaque to this layer.
pub struct Op {
    pub payload: String,
}

/// Initial session state carried by the `SessionConfigured` event.
pub struct SessionConfiguredEvent {
    pub session_id: String,
}

/// The discriminated payload of an [`Event`].
pub enum EventMsg {
    /// Initial session state, always the first event the consumer sees.
    SessionConfigured(SessionConfiguredEvent),
    /// A failure report addressed to the consumer.
    Error { message: String },
    /// Terminal marker: exactly one per session.
    ShutdownComplete,
    /// Any other event, forwarded unmodified.
    Other { kind: String },
}

/// An event produced by a session, with its correlation identifier.
pub struct Event {
    pub id: String,
    pub msg: EventMsg,
}

/// What the orchestration loop hands to its consumer.
pub enum AppEvent {
    /// An event to render.
    CodexEvent(Event),
    /// A request that the consumer exit, with the reason.
    FatalExitRequest(String),
}

/// Failure of a session operation (`submit` or `next_event`).
pub struct SessionError {
    pub message: String,
}

/// Failure of the collaborator that constructs sessions.
pub struct InitError {
    pub message: String,
}

pub open spec fn is_shutdown_msg(m: EventMsg) -> bool {
    m is ShutdownComplete
}

/// Whether `event` is the terminal `ShutdownComplete` marker.
pub fn is_shutdown_complete(event: &Event) -> (r: bool)
    ensures
        r == is_shutdown_msg(event.msg),
{
    match event.msg {
        EventMsg::ShutdownComplete => true,
        _ => false,
    }
}

} // verus!
