use tls_api_rustls::text::decimal_text;
use tls_api_rustls::{
    ConfigError, Error, FormatError, HandshakeError, Material, TransportError,
};

#[test]
fn numbers_are_written_in_decimal() {
    assert_eq!(decimal_text(0), "0");
    assert_eq!(decimal_text(7), "7");
    assert_eq!(decimal_text(10), "10");
    assert_eq!(decimal_text(1234567890), "1234567890");
    assert_eq!(decimal_text(usize::MAX), usize::MAX.to_string());
}

#[test]
fn format_errors_have_their_messages() {
    assert_eq!(FormatError::NotDerCertificate.message(), "not a DER-encoded certificate");
    assert_eq!(FormatError::EmptyPrivateKey.message(), "empty private key");
    assert_eq!(
        FormatError::Ambiguous { material: Material::Certificate, found: 2 }.message(),
        "ambiguous, 2 certificates found"
    );
    assert_eq!(
        FormatError::Ambiguous { material: Material::PrivateKey, found: 13 }.message(),
        "ambiguous, 13 private keys found"
    );
    assert_eq!(
        FormatError::NoneOfKind { material: Material::Certificate }.message(),
        "entries present, none are certificates"
    );
    assert_eq!(
        FormatError::NoneOfKind { material: Material::PrivateKey }.message(),
        "entries present, none are private keys"
    );
    assert_eq!(FormatError::LooksLikeDer.message(), "this is a DER file, not PEM");
    assert_eq!(
        FormatError::NothingFound { material: Material::Certificate }.message(),
        "no certificates found"
    );
    assert_eq!(
        FormatError::NothingFound { material: Material::PrivateKey }.message(),
        "no private keys found"
    );
    assert_eq!(
        FormatError::AmbiguousInput { entries: 3 }.message(),
        "PEM file should contain certificate and private key entries, got 3 entries"
    );
    assert_eq!(FormatError::RejectedRoot.message(), "certificate rejected as a trust anchor");
}

#[test]
fn config_errors_have_their_messages() {
    assert_eq!(
        ConfigError::VerifyHostnameReenabled.message(),
        "cannot set_verify_hostname(true) after set_verify_hostname(false)"
    );
    assert_eq!(ConfigError::InvalidHostName.message(), "invalid host name");
    assert_eq!(ConfigError::RejectedIdentity.message(), "invalid private key");
}

#[test]
fn an_error_has_the_message_of_what_it_holds() {
    assert_eq!(Error::Format(FormatError::LooksLikeDer).message(), "this is a DER file, not PEM");
    assert_eq!(Error::Config(ConfigError::InvalidHostName).message(), "invalid host name");
    assert_eq!(
        Error::Transport(TransportError { description: "connection reset".to_string() }).message(),
        "connection reset"
    );
    assert_eq!(
        Error::Handshake(HandshakeError { description: "bad certificate".to_string() }).message(),
        "bad certificate"
    );
}

#[test]
fn the_plural_names_the_material() {
    assert_eq!(Material::Certificate.plural_text(), "certificates");
    assert_eq!(Material::PrivateKey.plural_text(), "private keys");
}
