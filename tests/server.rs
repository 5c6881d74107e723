use udp_probe::server::{ServerAction, ServerEvent, ServerState, CHECKPOINT_INTERVAL};

fn accepted() -> ServerState {
    let (s, a) = ServerState::new();
    assert_eq!(s, ServerState::Listening);
    assert_eq!(a, ServerAction::AwaitHandshake);
    let (s, a) = s.step(&ServerEvent::Received(b"helo".to_vec()));
    assert_eq!(a, ServerAction::AcceptPeer);
    assert_eq!(s, ServerState::Streaming { since_checkpoint: 0 });
    s
}

fn send_interval(mut s: ServerState) -> ServerState {
    let mut sent: u64 = 1;
    loop {
        let (next, a) = s.step(&ServerEvent::Sent);
        s = next;
        if sent == CHECKPOINT_INTERVAL {
            assert_eq!(a, ServerAction::AwaitStop);
            assert_eq!(s, ServerState::Checkpoint);
            return s;
        }
        assert_eq!(a, ServerAction::SendData);
        sent += 1;
    }
}

#[test]
fn checkpoint_after_exactly_one_hundred_packets() {
    let s = send_interval(accepted());
    let (s, a) = s.step(&ServerEvent::Received(b"bye".to_vec()));
    assert_eq!(a, ServerAction::ClosePeer);
    assert_eq!(s, ServerState::Listening);
}

#[test]
fn checkpoint_without_stop_keeps_streaming() {
    let s = send_interval(accepted());
    let (s, a) = s.step(&ServerEvent::TimedOut);
    assert_eq!(a, ServerAction::SendData);
    let s = send_interval(s);
    let (s, a) = s.step(&ServerEvent::Received(b"xyz".to_vec()));
    assert_eq!(a, ServerAction::SendData);
    let s = send_interval(s);
    let (_, a) = s.step(&ServerEvent::Failed);
    assert_eq!(a, ServerAction::SendData);
}

#[test]
fn non_handshake_datagrams_are_ignored() {
    let (s, _) = ServerState::new();
    for d in [&b"hell"[..], b"HELO", b"bye\0", b"\0\0\0\0", b"hel"] {
        let (next, a) = s.step(&ServerEvent::Received(d.to_vec()));
        assert_eq!(next, ServerState::Listening);
        assert_eq!(a, ServerAction::AwaitHandshake);
    }
    let (next, a) = s.step(&ServerEvent::TimedOut);
    assert_eq!((next, a), (ServerState::Listening, ServerAction::AwaitHandshake));
    let (next, a) = s.step(&ServerEvent::Failed);
    assert_eq!((next, a), (ServerState::Listening, ServerAction::AwaitHandshake));
}

#[test]
fn failed_send_closes_the_peer() {
    let s = accepted();
    let (s, _) = s.step(&ServerEvent::Sent);
    let (s, a) = s.step(&ServerEvent::Failed);
    assert_eq!(a, ServerAction::ClosePeer);
    assert_eq!(s, ServerState::Listening);
    let (s, a) = s.step(&ServerEvent::Received(b"helo".to_vec()));
    assert_eq!(a, ServerAction::AcceptPeer);
    assert_eq!(s, ServerState::Streaming { since_checkpoint: 0 });
}

#[test]
fn stop_request_outside_checkpoint_is_not_read() {
    let s = accepted();
    let (s, a) = s.step(&ServerEvent::Received(b"bye".to_vec()));
    assert_eq!(a, ServerAction::SendData);
    assert_eq!(s, ServerState::Streaming { since_checkpoint: 0 });
}
