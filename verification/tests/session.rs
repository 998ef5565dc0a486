use kble_tcp::relay::{EndReason, Session, SessionAction, SessionEvent};

#[test]
fn fresh_session_is_active() {
    let session = Session::new();
    assert!(session.is_active());
    assert_eq!(session.end_reason(), None);
}

#[test]
fn ping_chunk_forwarded_whole() {
    let mut session = Session::new();
    let action = session.step(SessionEvent::NetRead(b"ping".to_vec()));
    assert_eq!(action, SessionAction::ForwardChunk(b"ping".to_vec()));
    assert!(session.is_active());
}

#[test]
fn pong_message_written_whole() {
    let mut session = Session::new();
    let action = session.step(SessionEvent::ChanMsg(b"pong".to_vec()));
    assert_eq!(action, SessionAction::WriteNet(b"pong".to_vec()));
    assert!(session.is_active());
}

#[test]
fn zero_read_ends_session_without_final_chunk() {
    let mut session = Session::new();
    let action = session.step(SessionEvent::NetRead(Vec::new()));
    assert_eq!(action, SessionAction::Idle);
    assert!(!session.is_active());
    assert_eq!(session.end_reason(), Some(EndReason::NetClosed));
}

#[test]
fn read_error_ends_session() {
    let mut session = Session::new();
    let action = session.step(SessionEvent::NetReadFailed);
    assert_eq!(action, SessionAction::Idle);
    assert_eq!(session.end_reason(), Some(EndReason::NetReadError));
}

#[test]
fn write_error_ends_session() {
    let mut session = Session::new();
    let action = session.step(SessionEvent::NetWriteFailed);
    assert_eq!(action, SessionAction::Idle);
    assert_eq!(session.end_reason(), Some(EndReason::NetWriteError));
}

#[test]
fn channel_end_ends_session() {
    let mut session = Session::new();
    let action = session.step(SessionEvent::ChanClosed);
    assert_eq!(action, SessionAction::Idle);
    assert_eq!(session.end_reason(), Some(EndReason::ChanEnded));
}

#[test]
fn channel_recv_error_ends_session() {
    let mut session = Session::new();
    let action = session.step(SessionEvent::ChanRecvFailed);
    assert_eq!(action, SessionAction::Idle);
    assert_eq!(session.end_reason(), Some(EndReason::ChanRecvError));
}

#[test]
fn channel_send_error_ends_session() {
    let mut session = Session::new();
    let action = session.step(SessionEvent::ChanSendFailed);
    assert_eq!(action, SessionAction::Idle);
    assert_eq!(session.end_reason(), Some(EndReason::ChanSendError));
}

#[test]
fn late_message_after_close_is_discarded() {
    let mut session = Session::new();
    session.step(SessionEvent::NetRead(Vec::new()));
    let action = session.step(SessionEvent::ChanMsg(b"late".to_vec()));
    assert_eq!(action, SessionAction::Idle);
    assert_eq!(session.end_reason(), Some(EndReason::NetClosed));
}

#[test]
fn end_reason_is_fixed_by_the_first_finisher() {
    let mut session = Session::new();
    session.step(SessionEvent::ChanClosed);
    session.step(SessionEvent::NetReadFailed);
    assert_eq!(session.end_reason(), Some(EndReason::ChanEnded));
}

#[test]
fn chunks_are_forwarded_in_order_and_concatenate_back() {
    let mut session = Session::new();
    let reads: Vec<Vec<u8>> = vec![b"hello ".to_vec(), b"relay ".to_vec(), b"world".to_vec()];
    let mut forwarded: Vec<u8> = Vec::new();
    for read in &reads {
        match session.step(SessionEvent::NetRead(read.clone())) {
            SessionAction::ForwardChunk(chunk) => {
                assert_eq!(&chunk, read);
                forwarded.extend_from_slice(&chunk);
            }
            other => panic!("expected a chunk to forward, got {:?}", other),
        }
    }
    assert_eq!(forwarded, b"hello relay world".to_vec());
    assert!(session.is_active());
}

#[test]
fn messages_are_written_in_order_and_concatenate_back() {
    let mut session = Session::new();
    let messages: Vec<Vec<u8>> = vec![b"one".to_vec(), b"".to_vec(), b"two".to_vec()];
    let mut written: Vec<u8> = Vec::new();
    for message in &messages {
        match session.step(SessionEvent::ChanMsg(message.clone())) {
            SessionAction::WriteNet(bytes) => {
                assert_eq!(&bytes, message);
                written.extend_from_slice(&bytes);
            }
            other => panic!("expected bytes to write, got {:?}", other),
        }
    }
    assert_eq!(written, b"onetwo".to_vec());
    assert!(session.is_active());
}
