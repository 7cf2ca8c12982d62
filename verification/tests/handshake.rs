use socks5_forwarder::handshake::{Action, Handshake, Phase};
use socks5_forwarder::target::{Credential, TargetAddress};
use socks5_forwarder::wire::SocksError;

fn no_auth_target(addr: [u8; 4], port: u16) -> Handshake {
    let (h, req) = Handshake::start(TargetAddress::ipv4(addr, port), None);
    assert_eq!(req, vec![0x05, 0x01, 0x00]);
    h
}

#[test]
fn no_auth_handshake_full_transcript() {
    let target = TargetAddress::ipv4([93, 184, 216, 34], 443);
    let (mut h, req) = Handshake::start(target, None);
    assert_eq!(req, vec![0x05, 0x01, 0x00]);
    assert_eq!(h.bytes_needed(), 2);

    let act = h.step(&vec![0x05, 0x00]);
    match act {
        Action::Send(b) => {
            assert_eq!(b, vec![0x05, 0x01, 0x00, 0x01, 93, 184, 216, 34, 0x01, 0xbb]);
        }
        _ => panic!("expected the CONNECT request to be sent"),
    }
    assert_eq!(h.phase, Phase::AwaitConnectHeader);
    assert_eq!(h.bytes_needed(), 4);

    let act = h.step(&vec![0x05, 0x00, 0x00, 0x01]);
    assert!(matches!(act, Action::Continue));
    assert_eq!(h.bytes_needed(), 6);

    let act = h.step(&vec![0, 0, 0, 0, 0, 0]);
    assert!(matches!(act, Action::Done));
    assert!(h.is_done());
    assert_eq!(h.bytes_needed(), 0);
}

#[test]
fn userpass_handshake_sends_auth_request() {
    let cred = Credential::new(b"alice".to_vec(), b"secret".to_vec()).unwrap();
    let target = TargetAddress::ipv4([10, 0, 0, 1], 80);
    let (mut h, req) = Handshake::start(target, Some(cred));
    assert_eq!(req, vec![0x05, 0x02, 0x00, 0x02]);

    let act = h.step(&vec![0x05, 0x02]);
    match act {
        Action::Send(b) => {
            let mut expected = vec![0x01, 5];
            expected.extend_from_slice(b"alice");
            expected.push(6);
            expected.extend_from_slice(b"secret");
            assert_eq!(b, expected);
        }
        _ => panic!("expected the auth request to be sent"),
    }
    assert_eq!(h.phase, Phase::AwaitAuthStatus);
}

#[test]
fn auth_failure_ends_before_any_connect() {
    let cred = Credential::new(b"alice".to_vec(), b"secret".to_vec()).unwrap();
    let target = TargetAddress::ipv4([10, 0, 0, 1], 80);
    let (mut h, _req) = Handshake::start(target, Some(cred));

    let act = h.step(&vec![0x05, 0x02]);
    assert!(matches!(act, Action::Send(_)));

    // The server reports authentication status 0x01: failure.
    let act = h.step(&vec![0x01, 0x01]);
    assert!(matches!(act, Action::Fail(SocksError::AuthenticationFailed)));
    assert_eq!(h.phase, Phase::Failed);
    assert!(!h.is_done());
    assert_eq!(h.bytes_needed(), 0);
}

#[test]
fn no_acceptable_method_fails() {
    let mut h = no_auth_target([1, 1, 1, 1], 443);
    let act = h.step(&vec![0x05, 0xff]);
    assert!(matches!(act, Action::Fail(SocksError::NoAcceptableAuthMethod)));
    assert_eq!(h.phase, Phase::Failed);
    assert!(!h.is_done());
}

#[test]
fn userpass_selected_without_credential_is_violation() {
    let mut h = no_auth_target([1, 1, 1, 1], 443);
    let act = h.step(&vec![0x05, 0x02]);
    assert!(matches!(act, Action::Fail(SocksError::ProtocolViolation)));
    assert_eq!(h.phase, Phase::Failed);
}

#[test]
fn bad_method_reply_version_is_violation() {
    let mut h = no_auth_target([1, 1, 1, 1], 443);
    let act = h.step(&vec![0x04, 0x00]);
    assert!(matches!(act, Action::Fail(SocksError::ProtocolViolation)));
}

#[test]
fn connect_refused_reply_code_is_kept() {
    let mut h = no_auth_target([8, 8, 8, 8], 53);
    let act = h.step(&vec![0x05, 0x00]);
    assert!(matches!(act, Action::Send(_)));

    // Reply code 0x05: connection refused by the target.
    let act = h.step(&vec![0x05, 0x05, 0x00, 0x01]);
    assert!(matches!(act, Action::Fail(SocksError::ServerReply(0x05))));
    assert_eq!(h.phase, Phase::Failed);
    assert!(!h.is_done());
}

#[test]
fn bad_connect_reply_version_is_violation() {
    let mut h = no_auth_target([8, 8, 8, 8], 53);
    let _ = h.step(&vec![0x05, 0x00]);
    let act = h.step(&vec![0x06, 0x00, 0x00, 0x01]);
    assert!(matches!(act, Action::Fail(SocksError::ProtocolViolation)));
}

#[test]
fn unknown_bound_address_type_is_violation() {
    let mut h = no_auth_target([8, 8, 8, 8], 53);
    let _ = h.step(&vec![0x05, 0x00]);
    let act = h.step(&vec![0x05, 0x00, 0x00, 0x09]);
    assert!(matches!(act, Action::Fail(SocksError::ProtocolViolation)));
}

#[test]
fn domain_bound_address_is_drained_by_length() {
    let mut h = no_auth_target([8, 8, 8, 8], 53);
    let _ = h.step(&vec![0x05, 0x00]);

    let act = h.step(&vec![0x05, 0x00, 0x00, 0x03]);
    assert!(matches!(act, Action::Continue));
    assert_eq!(h.bytes_needed(), 1);

    let act = h.step(&vec![11]);
    assert!(matches!(act, Action::Continue));
    // 11 name bytes plus the two port bytes are still to come.
    assert_eq!(h.bytes_needed(), 13);

    let act = h.step(&vec![0; 13]);
    assert!(matches!(act, Action::Done));
    assert!(h.is_done());
}

#[test]
fn ipv6_bound_address_needs_eighteen_bytes() {
    let mut h = no_auth_target([8, 8, 8, 8], 53);
    let _ = h.step(&vec![0x05, 0x00]);

    let act = h.step(&vec![0x05, 0x00, 0x00, 0x04]);
    assert!(matches!(act, Action::Continue));
    assert_eq!(h.bytes_needed(), 18);

    let act = h.step(&vec![0; 18]);
    assert!(matches!(act, Action::Done));
    assert!(h.is_done());
}
