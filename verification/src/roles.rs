use vstd::prelude::*;

use crate::relay::EndReason;

verus! {

/// The listener role's control state: bound to an address, it alternates
/// between waiting for a connection and bridging one, forever, unless
/// accepting itself fails.
#[derive(Clone, Copy, Debug, PartialEq, Eq, Structural)]
pub enum ListenerState {
    /// Waiting for the next inbound connection.
    Accepting,
    /// One relay session is running on an accepted connection.
    Bridging,
    /// Accepting failed: the role is over and the process aborts.
    Stopped,
}

/// One observation handed to the listener role by the code that drives it.
#[derive(Clone, Copy, Debug, PartialEq, Eq, Structural)]
pub enum ListenerEvent {
    /// A connection was accepted.
    Accepted,
    /// Accepting a connection failed.
    AcceptFailed,
    /// The running relay session ended, for this reason.
    SessionEnded(EndReason),
}

/// What the code driving the listener role must do next.
#[derive(Clone, Copy, Debug, PartialEq, Eq, Structural)]
pub enum ListenerAction {
    /// Wait for the next inbound connection.
    Accept,
    /// Split the new connection, open a fresh framed channel over standard
    /// input/output, and run one relay session to its end.
    RunSession,
    /// Report the fatal error and abort the process with a nonzero status.
    Abort,
    /// The event does not belong to this state: do nothing.
    Idle,
}

/// The listener role's transition function. A session's end, whatever its
/// reason, leads back to accepting: only a failure of accept itself is fatal.
pub open spec fn listener_next(state: ListenerState, event: ListenerEvent) -> (ListenerState,
    ListenerAction) {
    match (state, event) {
        (ListenerState::Accepting, ListenerEvent::Accepted) => (
            ListenerState::Bridging,
            ListenerAction::RunSession,
        ),
        (ListenerState::Accepting, ListenerEvent::AcceptFailed) => (
            ListenerState::Stopped,
            ListenerAction::Abort,
        ),
        (ListenerState::Bridging, ListenerEvent::SessionEnded(_)) => (
            ListenerState::Accepting,
            ListenerAction::Accept,
        ),
        (s, _) => (s, ListenerAction::Idle),
    }
}

/// Feed one event into the listener role; the result is exactly
/// `listener_next` of the old state. In particular, after a session ends —
/// normally or with an error on either side — the next action is always to
/// accept again: session failures are never fatal to the listener.
pub fn listener_step(state: ListenerState, event: ListenerEvent) -> (next: (
    ListenerState,
    ListenerAction,
))
    ensures
        next == listener_next(state, event),
{
    match (state, event) {
        (ListenerState::Accepting, ListenerEvent::Accepted) => (
            ListenerState::Bridging,
            ListenerAction::RunSession,
        ),
        (ListenerState::Accepting, ListenerEvent::AcceptFailed) => (
            ListenerState::Stopped,
            ListenerAction::Abort,
        ),
        (ListenerState::Bridging, ListenerEvent::SessionEnded(_)) => (
            ListenerState::Accepting,
            ListenerAction::Accept,
        ),
        (s, _) => (s, ListenerAction::Idle),
    }
}

/// The client role runs exactly one session and then exits the process with
/// status zero, whatever ended the session: the end of either direction,
/// normal or failed, is a normal end of the run. The reason is deliberately
/// discarded.
pub fn client_exit_status(reason: EndReason) -> (status: i32)
    ensures
        status == 0,
{
    let _ = reason;
    0
}

} // verus!
