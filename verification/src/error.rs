//! The errors of the library, one value per failure.

use crate::text::{decimal, decimal_text};
use vstd::prelude::*;

verus! {

/// The kind of key material that a PEM buffer is searched for.
#[derive(Clone, Copy, Debug, PartialEq, Eq, Structural)]
pub enum Material {
    /// An X.509 certificate.
    Certificate,
    /// A private key.
    PrivateKey,
}

/// Malformed or ambiguous DER or PEM input.
#[derive(Clone, Copy, Debug, PartialEq, Eq, Structural)]
pub enum FormatError {
    /// The bytes do not start with the ASN.1 SEQUENCE tag.
    NotDerCertificate,
    /// A private key of no bytes.
    EmptyPrivateKey,
    /// More than one PEM entry holds the material that was asked for.
    Ambiguous { material: Material, found: usize },
    /// The buffer holds PEM entries, and none of the material asked for.
    NoneOfKind { material: Material },
    /// The buffer holds no PEM entry and starts like a DER file.
    LooksLikeDer,
    /// The buffer holds no PEM entry at all.
    NothingFound { material: Material },
    /// A buffer that must hold a certificate and a key holds another number
    /// of PEM entries than two.
    AmbiguousInput { entries: usize },
    /// The engine cannot take the certificate as a trust anchor.
    RejectedRoot,
}

/// A setting that the configuration cannot take.
#[derive(Clone, Copy, Debug, PartialEq, Eq, Structural)]
pub enum ConfigError {
    /// Host name verification was switched on after it had been switched off.
    VerifyHostnameReenabled,
    /// The host name to connect to is not a well-formed DNS name.
    InvalidHostName,
    /// The engine refuses the server's certificate and key.
    RejectedIdentity,
}

/// A failure of the transport under the session, as the transport described it.
#[derive(Clone, Debug, PartialEq, Eq)]
pub struct TransportError {
    pub description: String,
}

/// A protocol or certificate failure that the engine reported.
#[derive(Clone, Debug, PartialEq, Eq)]
pub struct HandshakeError {
    pub description: String,
}

/// Every error that the library returns.
#[derive(Clone, Debug, PartialEq, Eq)]
pub enum Error {
    Format(FormatError),
    Config(ConfigError),
    Transport(TransportError),
    Handshake(HandshakeError),
}

impl Material {
    /// The name of this material in the plural, as the messages use it.
    pub open spec fn plural(self) -> Seq<char> {
        match self {
            Material::Certificate => "certificates"@,
            Material::PrivateKey => "private keys"@,
        }
    }

    /// The name of this material in the plural.
    pub fn plural_text(self) -> (text: &'static str)
        ensures
            text@ == self.plural(),
    {
        match self {
            Material::Certificate => "certificates",
            Material::PrivateKey => "private keys",
        }
    }
}

impl FormatError {
    /// The message of the error.
    pub open spec fn message_text(self) -> Seq<char> {
        match self {
            FormatError::NotDerCertificate => "not a DER-encoded certificate"@,
            FormatError::EmptyPrivateKey => "empty private key"@,
            FormatError::Ambiguous { material, found } => "ambiguous, "@ + decimal(found as nat)
                + " "@ + material.plural() + " found"@,
            FormatError::NoneOfKind { material } => "entries present, none are "@
                + material.plural(),
            FormatError::LooksLikeDer => "this is a DER file, not PEM"@,
            FormatError::NothingFound { material } => "no "@ + material.plural() + " found"@,
            FormatError::AmbiguousInput { entries } =>
                "PEM file should contain certificate and private key entries, got "@ + decimal(
                entries as nat,
            ) + " entries"@,
            FormatError::RejectedRoot => "certificate rejected as a trust anchor"@,
        }
    }

    /// The message of the error.
    pub fn message(&self) -> (text: String)
        ensures
            text@ == self.message_text(),
    {
        match *self {
            FormatError::NotDerCertificate => String::from_str("not a DER-encoded certificate"),
            FormatError::EmptyPrivateKey => String::from_str("empty private key"),
            FormatError::Ambiguous { material, found } => {
                let mut text = String::from_str("ambiguous, ");
                text.append(decimal_text(found).as_str());
                text.append(" ");
                text.append(material.plural_text());
                text.append(" found");
                text
            },
            FormatError::NoneOfKind { material } => {
                let mut text = String::from_str("entries present, none are ");
                text.append(material.plural_text());
                text
            },
            FormatError::LooksLikeDer => String::from_str("this is a DER file, not PEM"),
            FormatError::NothingFound { material } => {
                let mut text = String::from_str("no ");
                text.append(material.plural_text());
                text.append(" found");
                text
            },
            FormatError::AmbiguousInput { entries } => {
                let mut text = String::from_str(
                    "PEM file should contain certificate and private key entries, got ",
                );
                text.append(decimal_text(entries).as_str());
                text.append(" entries");
                text
            },
            FormatError::RejectedRoot => String::from_str("certificate rejected as a trust anchor"),
        }
    }
}

impl ConfigError {
    /// The message of the error.
    pub open spec fn message_text(self) -> Seq<char> {
        match self {
            ConfigError::VerifyHostnameReenabled =>
                "cannot set_verify_hostname(true) after set_verify_hostname(false)"@,
            ConfigError::InvalidHostName => "invalid host name"@,
            ConfigError::RejectedIdentity => "invalid private key"@,
        }
    }

    /// The message of the error.
    pub fn message(&self) -> (text: String)
        ensures
            text@ == self.message_text(),
    {
        match *self {
            ConfigError::VerifyHostnameReenabled => String::from_str(
                "cannot set_verify_hostname(true) after set_verify_hostname(false)",
            ),
            ConfigError::InvalidHostName => String::from_str("invalid host name"),
            ConfigError::RejectedIdentity => String::from_str("invalid private key"),
        }
    }
}

impl Error {
    /// The message of the error. A transport or handshake error has the
    /// description that came with it.
    pub open spec fn message_text(self) -> Seq<char> {
        match self {
            Error::Format(e) => e.message_text(),
            Error::Config(e) => e.message_text(),
            Error::Transport(e) => e.description@,
            Error::Handshake(e) => e.description@,
        }
    }

    /// The message of the error.
    pub fn message(&self) -> (text: String)
        ensures
            text@ == self.message_text(),
    {
        match self {
            Error::Format(e) => e.message(),
            Error::Config(e) => e.message(),
            Error::Transport(e) => e.description.clone(),
            Error::Handshake(e) => e.description.clone(),
        }
    }
}

} // verus!
