use socks5_forwarder::target::{credential_from_parts, Credential, ProxyConfig, TargetAddress};
use socks5_forwarder::wire::SocksError;

#[test]
fn domain_longer_than_255_bytes_is_rejected_before_io() {
    let long = vec![b'a'; 256];
    assert!(matches!(
        TargetAddress::domain(long, 443),
        Err(SocksError::ProtocolViolation)
    ));
}

#[test]
fn domain_of_255_bytes_is_accepted() {
    let host = vec![b'a'; 255];
    let t = TargetAddress::domain(host.clone(), 443).unwrap();
    match t {
        TargetAddress::Domain { host: h, port } => {
            assert_eq!(h, host);
            assert_eq!(port, 443);
        }
        _ => panic!("expected a domain target"),
    }
}

#[test]
fn credential_fields_longer_than_255_bytes_are_rejected() {
    assert!(matches!(
        Credential::new(vec![b'u'; 256], b"p".to_vec()),
        Err(SocksError::ProtocolViolation)
    ));
    assert!(matches!(
        Credential::new(b"u".to_vec(), vec![b'p'; 256]),
        Err(SocksError::ProtocolViolation)
    ));
    assert!(Credential::new(vec![b'u'; 255], vec![b'p'; 255]).is_ok());
}

#[test]
fn credential_exists_only_when_both_parts_are_present() {
    let both = credential_from_parts(Some(b"alice".to_vec()), Some(b"secret".to_vec())).unwrap();
    let c = both.expect("both parts present");
    assert_eq!(c.username, b"alice".to_vec());
    assert_eq!(c.password, b"secret".to_vec());

    assert!(credential_from_parts(Some(b"alice".to_vec()), None).unwrap().is_none());
    assert!(credential_from_parts(None, Some(b"secret".to_vec())).unwrap().is_none());
    assert!(credential_from_parts(None, None).unwrap().is_none());
}

#[test]
fn proxy_config_keeps_its_fields() {
    let cfg = ProxyConfig::new("127.0.0.1:1080".to_string(), None);
    assert_eq!(cfg.address, "127.0.0.1:1080");
    assert!(cfg.credential.is_none());
}
