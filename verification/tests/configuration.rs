use tls_api_rustls::{
    Cert, ConfigError, Error, FormatError, HandshakeDriver, PrivateKey, TlsAcceptorBuilder,
    TlsConnector, TlsConnectorBuilder, TrustRoots,
};

// A self-signed Ed25519 certificate for "test root", made for these tests.
const ROOT_DER: [u8; 320] = [
    0x30, 0x82, 0x01, 0x3c, 0x30, 0x81, 0xef, 0xa0, 0x03, 0x02, 0x01, 0x02,
    0x02, 0x14, 0x20, 0x94, 0xb8, 0x88, 0x02, 0x77, 0x65, 0xa1, 0xb0, 0x3b,
    0xc7, 0x4f, 0x26, 0xf0, 0xc6, 0x01, 0x31, 0x0b, 0x46, 0x1d, 0x30, 0x05,
    0x06, 0x03, 0x2b, 0x65, 0x70, 0x30, 0x14, 0x31, 0x12, 0x30, 0x10, 0x06,
    0x03, 0x55, 0x04, 0x03, 0x0c, 0x09, 0x74, 0x65, 0x73, 0x74, 0x20, 0x72,
    0x6f, 0x6f, 0x74, 0x30, 0x1e, 0x17, 0x0d, 0x32, 0x36, 0x31, 0x30, 0x32,
    0x38, 0x30, 0x31, 0x34, 0x33, 0x31, 0x38, 0x5a, 0x17, 0x0d, 0x33, 0x36,
    0x31, 0x30, 0x32, 0x35, 0x30, 0x31, 0x34, 0x33, 0x31, 0x38, 0x5a, 0x30,
    0x14, 0x31, 0x12, 0x30, 0x10, 0x06, 0x03, 0x55, 0x04, 0x03, 0x0c, 0x09,
    0x74, 0x65, 0x73, 0x74, 0x20, 0x72, 0x6f, 0x6f, 0x74, 0x30, 0x2a, 0x30,
    0x05, 0x06, 0x03, 0x2b, 0x65, 0x70, 0x03, 0x21, 0x00, 0x0c, 0x92, 0xb4,
    0xb8, 0x7a, 0x5c, 0x9e, 0x03, 0xc7, 0x9f, 0x3b, 0x2c, 0x64, 0x28, 0x6e,
    0x1c, 0x02, 0x33, 0x5c, 0x49, 0x29, 0xfa, 0x8a, 0xc1, 0x8d, 0x46, 0xa2,
    0x76, 0x6c, 0x51, 0xe3, 0x72, 0xa3, 0x53, 0x30, 0x51, 0x30, 0x1d, 0x06,
    0x03, 0x55, 0x1d, 0x0e, 0x04, 0x16, 0x04, 0x14, 0xbc, 0xc6, 0x7e, 0x4f,
    0xb7, 0xab, 0x6e, 0xd0, 0x08, 0x73, 0xb6, 0x8c, 0xe5, 0x91, 0x93, 0x23,
    0x4c, 0x3a, 0xad, 0xf0, 0x30, 0x1f, 0x06, 0x03, 0x55, 0x1d, 0x23, 0x04,
    0x18, 0x30, 0x16, 0x80, 0x14, 0xbc, 0xc6, 0x7e, 0x4f, 0xb7, 0xab, 0x6e,
    0xd0, 0x08, 0x73, 0xb6, 0x8c, 0xe5, 0x91, 0x93, 0x23, 0x4c, 0x3a, 0xad,
    0xf0, 0x30, 0x0f, 0x06, 0x03, 0x55, 0x1d, 0x13, 0x01, 0x01, 0xff, 0x04,
    0x05, 0x30, 0x03, 0x01, 0x01, 0xff, 0x30, 0x05, 0x06, 0x03, 0x2b, 0x65,
    0x70, 0x03, 0x41, 0x00, 0xa8, 0x12, 0xf4, 0x25, 0x1f, 0xb6, 0x39, 0x32,
    0x3f, 0xbe, 0xa1, 0x01, 0x00, 0xc0, 0x08, 0x16, 0xfb, 0x1c, 0xec, 0x4a,
    0x1b, 0x47, 0x1c, 0xe1, 0x17, 0x72, 0xae, 0x91, 0xe7, 0x68, 0x9c, 0x32,
    0x6e, 0xa5, 0x66, 0x20, 0xd5, 0x90, 0x33, 0x58, 0xa8, 0x8a, 0xbc, 0x85,
    0x9c, 0xda, 0xc4, 0xf2, 0x94, 0x0c, 0xe1, 0xa5, 0x72, 0x78, 0x55, 0x57,
    0xfc, 0x0e, 0x5c, 0x5b, 0x88, 0xf7, 0x78, 0x08,
];

// The PKCS #8 private key of that certificate.
const ROOT_KEY_DER: [u8; 48] = [
    0x30, 0x2e, 0x02, 0x01, 0x00, 0x30, 0x05, 0x06, 0x03, 0x2b, 0x65, 0x70,
    0x04, 0x22, 0x04, 0x20, 0x67, 0xfe, 0xdd, 0xf6, 0x95, 0x20, 0xfd, 0x5d,
    0xbc, 0x3c, 0xc4, 0x06, 0x94, 0x47, 0xd7, 0x3a, 0x7e, 0x94, 0xda, 0x94,
    0x1d, 0x53, 0x9d, 0x7c, 0x97, 0x9f, 0x38, 0xc0, 0x59, 0xe3, 0xc8, 0x65,
];

fn new_builder() -> TlsConnectorBuilder {
    TlsConnector::builder().unwrap()
}

#[test]
fn a_fresh_builder_verifies_and_holds_nothing() {
    let builder = new_builder();
    assert!(builder.verify_hostname());
    assert!(builder.alpn_protocols().is_empty());
    assert!(builder.root_certificates().is_empty());
}

#[test]
fn both_builders_support_alpn() {
    assert!(TlsConnectorBuilder::SUPPORTS_ALPN);
    assert!(TlsAcceptorBuilder::SUPPORTS_ALPN);
}

#[test]
fn alpn_protocols_are_kept_in_order() {
    let mut builder = new_builder();
    builder.set_alpn_protocols(&[b"h2", b"http/1.1"]).unwrap();
    assert_eq!(builder.alpn_protocols(), &vec![b"h2".to_vec(), b"http/1.1".to_vec()]);
    builder.set_alpn_protocols(&[b"http/1.1"]).unwrap();
    assert_eq!(builder.alpn_protocols(), &vec![b"http/1.1".to_vec()]);
    builder.set_alpn_protocols(&[]).unwrap();
    assert!(builder.alpn_protocols().is_empty());
    assert!(builder.verify_hostname());
}

#[test]
fn verification_can_be_switched_off() {
    let mut builder = new_builder();
    assert_eq!(builder.set_verify_hostname(false), Ok(()));
    assert!(!builder.verify_hostname());
    assert_eq!(builder.set_verify_hostname(false), Ok(()));
    assert!(!builder.verify_hostname());
}

#[test]
fn verification_can_be_confirmed() {
    let mut builder = new_builder();
    assert_eq!(builder.set_verify_hostname(true), Ok(()));
    assert_eq!(builder.set_verify_hostname(true), Ok(()));
    assert!(builder.verify_hostname());
}

#[test]
fn verification_cannot_be_switched_on_again() {
    let mut builder = new_builder();
    builder.set_alpn_protocols(&[b"h2"]).unwrap();
    builder.set_verify_hostname(false).unwrap();
    assert_eq!(
        builder.set_verify_hostname(true),
        Err(Error::Config(ConfigError::VerifyHostnameReenabled))
    );
    assert!(!builder.verify_hostname());
    assert_eq!(builder.alpn_protocols(), &vec![b"h2".to_vec()]);
    assert_eq!(
        builder.set_verify_hostname(true),
        Err(Error::Config(ConfigError::VerifyHostnameReenabled))
    );
}

#[test]
fn a_real_certificate_becomes_a_root() {
    let cert = Cert::from_der(ROOT_DER.to_vec()).unwrap();
    let mut builder = new_builder();
    assert!(builder.add_root_certificate(&cert).is_ok());
    assert_eq!(builder.root_certificates(), &vec![cert.clone()]);
    assert!(builder.add_root_certificate(&cert).is_ok());
    assert_eq!(builder.root_certificates().len(), 2);
}

#[test]
fn bytes_that_are_no_certificate_become_no_root() {
    let cert = Cert::from_der(vec![0x30, 0x03, 0x02, 0x01, 0x00]).unwrap();
    let mut builder = new_builder();
    assert_eq!(
        builder.add_root_certificate(&cert).err(),
        Some(Error::Format(FormatError::RejectedRoot))
    );
    assert!(builder.root_certificates().is_empty());
}

#[test]
fn roots_can_be_added_in_a_chain() {
    let cert = Cert::from_der(ROOT_DER.to_vec()).unwrap();
    let mut builder = new_builder();
    builder
        .add_root_certificate(&cert)
        .ok()
        .unwrap()
        .add_root_certificate(&cert)
        .ok()
        .unwrap()
        .set_verify_hostname(false)
        .unwrap();
    assert_eq!(builder.root_certificates().len(), 2);
    assert!(!builder.verify_hostname());
}

#[test]
fn a_rejected_root_leaves_the_others() {
    let good = Cert::from_der(ROOT_DER.to_vec()).unwrap();
    let bad = Cert::from_der(vec![0x30]).unwrap();
    let mut builder = new_builder();
    assert!(builder.add_root_certificate(&good).is_ok());
    assert!(builder.add_root_certificate(&bad).is_err());
    assert_eq!(builder.root_certificates(), &vec![good]);
}

#[test]
fn a_connector_without_roots_trusts_the_bundled_ones() {
    let mut builder = new_builder();
    builder.set_alpn_protocols(&[b"h2"]).unwrap();
    let connector = builder.build().ok().unwrap();
    let config = connector.get_config();
    assert!(matches!(config.trust, TrustRoots::Bundled));
    assert!(config.verify_hostname);
    assert_eq!(config.alpn_protocols, vec![b"h2".to_vec()]);
}

#[test]
fn a_connector_with_roots_trusts_only_them() {
    let cert = Cert::from_der(ROOT_DER.to_vec()).unwrap();
    let mut builder = new_builder();
    assert!(builder.add_root_certificate(&cert).is_ok());
    builder.set_verify_hostname(false).unwrap();
    let connector = builder.build().ok().unwrap();
    let config = connector.get_config();
    match &config.trust {
        TrustRoots::Anchors(anchors) => assert_eq!(anchors, &vec![cert]),
        TrustRoots::Bundled => panic!("the connector has a root of its own"),
    }
    assert!(!config.verify_hostname);
    assert!(config.alpn_protocols.is_empty());
}

#[test]
fn a_shared_configuration_is_the_same_one() {
    let connector = new_builder().build().ok().unwrap();
    let shared = connector.share_config();
    assert!(std::ptr::eq(&*shared, connector.get_config()));
}

#[test]
fn connect_takes_a_host_name() {
    let connector = new_builder().build().ok().unwrap();
    match connector.connect("example.com", 17u32, |host| format!("session for {}", host.as_str())) {
        Ok(HandshakeDriver::MidHandshake(stream)) => {
            assert_eq!(stream.session, "session for example.com");
            assert_eq!(*stream.get_ref(), 17);
            assert_eq!(stream.bridge.blocked_on(), None);
        }
        _ => panic!("a driver in the middle of the handshake was expected"),
    }
    assert!(connector.connect("a-b.example.org.", (), |_| ()).is_ok());
    assert!(connector.connect("under_score.example", (), |_| ()).is_ok());
}

#[test]
fn connect_refuses_what_is_no_host_name() {
    let connector = new_builder().build().ok().unwrap();
    for name in ["", "exa mple.com", "-a.example", "a..b", "1.2.3.4", "*.example.com", "ex\u{e4}mple.com"] {
        let mut sessions = 0;
        match connector.connect(name, (), |_| sessions += 1) {
            Err(e) => assert_eq!(e, Error::Config(ConfigError::InvalidHostName)),
            Ok(_) => panic!("{:?} is no host name", name),
        }
        assert_eq!(sessions, 0);
    }
}

#[test]
fn a_server_takes_a_certificate_and_its_key() {
    let cert = Cert::from_der(ROOT_DER.to_vec()).unwrap();
    let key = PrivateKey::from_der(ROOT_KEY_DER.to_vec()).unwrap();
    let builder = TlsAcceptorBuilder::from_cert_and_key(&cert, &key).ok().unwrap();
    assert_eq!(builder.0.cert, cert);
    assert_eq!(builder.0.key, key);
    assert!(builder.0.alpn_protocols.is_empty());
}

#[test]
fn a_server_refuses_bytes_that_are_no_key() {
    let cert = Cert::from_der(ROOT_DER.to_vec()).unwrap();
    let key = PrivateKey::from_der(vec![0x30, 0x01, 0x02]).unwrap();
    match TlsAcceptorBuilder::from_cert_and_key(&cert, &key) {
        Err(e) => assert_eq!(e, Error::Config(ConfigError::RejectedIdentity)),
        Ok(_) => panic!("three bytes are no private key"),
    }
}

#[test]
fn a_server_keeps_its_alpn_protocols() {
    let cert = Cert::from_der(ROOT_DER.to_vec()).unwrap();
    let key = PrivateKey::from_der(ROOT_KEY_DER.to_vec()).unwrap();
    let mut builder = TlsAcceptorBuilder::from_cert_and_key(&cert, &key).ok().unwrap();
    assert_eq!(builder.set_alpn_protocols(&[b"h2", b"h3"]), Ok(()));
    let acceptor = builder.build().ok().unwrap();
    let config = acceptor.get_config();
    assert_eq!(config.alpn_protocols, vec![b"h2".to_vec(), b"h3".to_vec()]);
    assert_eq!(config.cert, cert);
    assert_eq!(config.key, key);
}

#[test]
fn accept_starts_in_the_middle_of_the_handshake() {
    let cert = Cert::from_der(ROOT_DER.to_vec()).unwrap();
    let key = PrivateKey::from_der(ROOT_KEY_DER.to_vec()).unwrap();
    let acceptor = TlsAcceptorBuilder::from_cert_and_key(&cert, &key)
        .ok()
        .unwrap()
        .build()
        .ok()
        .unwrap();
    match acceptor.accept("socket", 5u8) {
        HandshakeDriver::MidHandshake(stream) => {
            assert_eq!(stream.session, 5);
            assert_eq!(*stream.get_ref(), "socket");
            assert_eq!(stream.bridge.blocked_on(), None);
        }
        _ => panic!("a driver in the middle of the handshake was expected"),
    }
}

#[test]
fn an_accepted_identity_makes_a_builder() {
    let cert = Cert::from_der(vec![0x30, 0x01]).unwrap();
    let key = PrivateKey::from_der(vec![0x02]).unwrap();
    let builder = TlsAcceptorBuilder::with_identity(&cert, &key, true).ok().unwrap();
    assert_eq!(builder.0.cert, cert);
    assert_eq!(builder.0.key, key);
    assert!(builder.0.alpn_protocols.is_empty());
}

#[test]
fn a_refused_identity_makes_none() {
    let cert = Cert::from_der(ROOT_DER.to_vec()).unwrap();
    let key = PrivateKey::from_der(ROOT_KEY_DER.to_vec()).unwrap();
    match TlsAcceptorBuilder::with_identity(&cert, &key, false) {
        Err(e) => assert_eq!(e, Error::Config(ConfigError::RejectedIdentity)),
        Ok(_) => panic!("the identity was refused"),
    }
}

#[test]
fn a_host_name_is_a_name_that_parses() {
    let host = tls_api_rustls::HostName::parse("example.com").unwrap();
    assert_eq!(host.as_str(), "example.com");
    assert!(tls_api_rustls::HostName::parse("exa mple.com").is_none());
    assert!(tls_api_rustls::HostName::parse("").is_none());
}
