//! The questions that only the cryptographic engine can answer.
//!
//! Each function here puts one question to `rustls` or `webpki` and hands the
//! answer back as a `bool`. None of the answers is proved. Where the answer
//! depends on the bytes alone, the contract gives it a name, which says that
//! the same bytes get the same answer; where it does not, the contract says
//! nothing, and the caller holds for either answer.

use vstd::prelude::*;

verus! {

/// Whether `rustls::RootCertStore::add` takes a DER certificate as a trust
/// anchor.
pub uninterp spec fn trust_anchor_accepted(der: Seq<u8>) -> bool;

/// Whether `webpki::DNSNameRef::try_from_ascii_str` takes a host name.
pub uninterp spec fn dns_name_accepted(name: Seq<char>) -> bool;

/// Calls `rustls::RootCertStore::add` on an empty store. It reads the
/// certificate with `webpki` and adds its subject and key as an anchor, or
/// returns the parser's error and adds nothing; it checks neither a signature
/// nor the CA constraint.
#[verifier::external_body]
pub(crate) fn accepts_trust_anchor(der: &[u8]) -> (accepted: bool)
    ensures
        accepted == trust_anchor_accepted(der@),
{
    rustls::RootCertStore::empty().add(&rustls::Certificate(der.to_vec())).is_ok()
}

/// Calls `webpki::DNSNameRef::try_from_ascii_str`, which accepts a
/// syntactically valid DNS name: labels of letters, digits, hyphens and
/// underscores, separated by dots.
#[verifier::external_body]
pub(crate) fn accepts_dns_name(name: &str) -> (accepted: bool)
    ensures
        accepted == dns_name_accepted(name@),
{
    webpki::DNSNameRef::try_from_ascii_str(name).is_ok()
}

/// Calls `rustls::ServerConfig::set_single_cert` on a fresh configuration
/// without client authentication. It fails if the key is not a DER-encoded
/// RSA, ECDSA or Ed25519 private key. Nothing is claimed of the answer: for
/// an ECDSA key the engine draws from the system's random source while it
/// loads the key, and refuses the key if the source fails, so the same bytes
/// may be taken at one time and refused at another.
#[verifier::external_body]
pub(crate) fn accepts_server_identity(cert: &[u8], key: &[u8]) -> (accepted: bool) {
    let mut config = rustls::ServerConfig::new(rustls::NoClientAuth::new());
    config.set_single_cert(
        vec![rustls::Certificate(cert.to_vec())],
        rustls::PrivateKey(key.to_vec()),
    ).is_ok()
}

} // verus!
