use udp_probe::wire::{handshake_packet, is_handshake, is_stop_request, stop_packet};

#[test]
fn handshake_matches_exactly() {
    assert!(is_handshake(b"helo"));
    assert!(!is_handshake(b"HELO"));
    assert!(!is_handshake(b"help"));
    assert!(!is_handshake(b"hel"));
    assert!(!is_handshake(b"helo\x05"));
    assert!(!is_handshake(&[0, 0, 0, 0]));
    assert!(!is_handshake(b""));
}

#[test]
fn stop_request_matches_exactly() {
    assert!(is_stop_request(b"bye"));
    assert!(!is_stop_request(b"by"));
    assert!(!is_stop_request(b"byE"));
    assert!(!is_stop_request(b"byee"));
    assert!(!is_stop_request(b"hel"));
}

#[test]
fn control_packets_are_ascii_tags() {
    assert_eq!(handshake_packet(), b"helo".to_vec());
    assert_eq!(stop_packet(), b"bye".to_vec());
    assert!(is_handshake(&handshake_packet()));
    assert!(is_stop_request(&stop_packet()));
}
