use socks5_forwarder::relay::{
    accept_action, direction_step, relay_outcome, AcceptAction, AcceptEvent, CopyAction,
    DirectionState, ReadEvent, RelayError,
};

#[test]
fn accept_decisions_are_stateless_per_event() {
    assert_eq!(accept_action(&AcceptEvent::Accepted), AcceptAction::SpawnRelay);
    assert_eq!(accept_action(&AcceptEvent::Closed), AcceptAction::Stop);
    assert_eq!(accept_action(&AcceptEvent::AcceptFailed), AcceptAction::KeepListening);
    // A failed accept never stops the loop, and the next accepted
    // connection still gets its own relay task.
    assert_eq!(accept_action(&AcceptEvent::AcceptFailed), AcceptAction::KeepListening);
    assert_eq!(accept_action(&AcceptEvent::Accepted), AcceptAction::SpawnRelay);
}

#[test]
fn data_is_forwarded_byte_for_byte() {
    let payload = b"GET / HTTP/1.1\r\n\r\n".to_vec();
    let (state, action) = direction_step(DirectionState::Streaming, ReadEvent::Data(payload.clone()));
    assert_eq!(state, DirectionState::Streaming);
    match action {
        CopyAction::Forward(out) => assert_eq!(out, payload),
        _ => panic!("expected the bytes to be forwarded unchanged"),
    }
}

#[test]
fn eof_half_closes_only_this_direction() {
    let client_to_server = DirectionState::Streaming;
    let server_to_client = DirectionState::Streaming;

    let (c2s, action) = direction_step(client_to_server, ReadEvent::Eof);
    assert_eq!(c2s, DirectionState::SourceDrained);
    assert!(matches!(action, CopyAction::HalfClose));

    // The opposite direction is a separate value and keeps streaming.
    assert_eq!(server_to_client, DirectionState::Streaming);
    let (s2c, action) = direction_step(server_to_client, ReadEvent::Data(b"late reply".to_vec()));
    assert_eq!(s2c, DirectionState::Streaming);
    assert!(matches!(action, CopyAction::Forward(_)));

    // Until its own source drains.
    let (s2c, action) = direction_step(s2c, ReadEvent::Eof);
    assert_eq!(s2c, DirectionState::SourceDrained);
    assert!(matches!(action, CopyAction::HalfClose));
}

#[test]
fn read_failure_aborts_the_direction() {
    let (state, action) = direction_step(DirectionState::Streaming, ReadEvent::ReadFailed);
    assert_eq!(state, DirectionState::DirectionFailed);
    assert!(matches!(action, CopyAction::Abort));
}

#[test]
fn relay_succeeds_only_when_both_directions_drained() {
    let drained = DirectionState::SourceDrained;
    let failed = DirectionState::DirectionFailed;
    assert_eq!(relay_outcome(drained, drained), Ok(()));
    assert_eq!(relay_outcome(failed, drained), Err(RelayError::IoError));
    assert_eq!(relay_outcome(drained, failed), Err(RelayError::IoError));
    assert_eq!(relay_outcome(failed, failed), Err(RelayError::IoError));
}
