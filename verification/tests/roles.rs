use kble_tcp::relay::EndReason;
use kble_tcp::roles::{client_exit_status, listener_step, ListenerAction, ListenerEvent, ListenerState};

const ALL_REASONS: [EndReason; 6] = [
    EndReason::NetClosed,
    EndReason::NetReadError,
    EndReason::NetWriteError,
    EndReason::ChanEnded,
    EndReason::ChanRecvError,
    EndReason::ChanSendError,
];

#[test]
fn accepting_a_connection_runs_a_session() {
    let next = listener_step(ListenerState::Accepting, ListenerEvent::Accepted);
    assert_eq!(next, (ListenerState::Bridging, ListenerAction::RunSession));
}

#[test]
fn accept_failure_is_fatal() {
    let next = listener_step(ListenerState::Accepting, ListenerEvent::AcceptFailed);
    assert_eq!(next, (ListenerState::Stopped, ListenerAction::Abort));
}

#[test]
fn listener_reaccepts_after_every_session_outcome() {
    for reason in ALL_REASONS {
        let next = listener_step(ListenerState::Bridging, ListenerEvent::SessionEnded(reason));
        assert_eq!(next, (ListenerState::Accepting, ListenerAction::Accept));
    }
}

#[test]
fn listener_keeps_cycling_over_many_sessions() {
    let mut state = ListenerState::Accepting;
    for round in 0..100usize {
        let (bridging, action) = listener_step(state, ListenerEvent::Accepted);
        assert_eq!(action, ListenerAction::RunSession);
        let reason = ALL_REASONS[round % ALL_REASONS.len()];
        let (accepting, action) = listener_step(bridging, ListenerEvent::SessionEnded(reason));
        assert_eq!(action, ListenerAction::Accept);
        assert_eq!(accepting, ListenerState::Accepting);
        state = accepting;
    }
}

#[test]
fn client_exits_zero_whatever_ended_the_session() {
    for reason in ALL_REASONS {
        assert_eq!(client_exit_status(reason), 0);
    }
}
