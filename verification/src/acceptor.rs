//! The server side: a builder that holds the server's identity, and the
//! acceptor that it builds.

use crate::cert::{Cert, PrivateKey};
use crate::connector::{borrowed_names, copy_names, names};
use crate::engine::accepts_server_identity;
use crate::error::{ConfigError, Error};
use crate::handshake::{HandshakeDriver, TlsStream};
use std::sync::Arc;
use vstd::prelude::*;

verus! {

/// The settings of an acceptor, as mathematical values.
pub struct AcceptorSettings {
    /// The server's certificate, as DER.
    pub cert: Seq<u8>,
    /// The server's private key, as DER.
    pub key: Seq<u8>,
    /// The ALPN protocol names that the server knows.
    pub alpn_protocols: Seq<Seq<u8>>,
}

/// The settings of an acceptor. The builder holds them while they can still
/// change; the acceptor holds them finished.
#[derive(Debug)]
pub struct AcceptorConfig {
    pub cert: Cert,
    pub key: PrivateKey,
    pub alpn_protocols: Vec<Vec<u8>>,
}

impl View for AcceptorConfig {
    type V = AcceptorSettings;

    open spec fn view(&self) -> AcceptorSettings {
        AcceptorSettings {
            cert: self.cert@,
            key: self.key@,
            alpn_protocols: names(self.alpn_protocols@),
        }
    }
}

/// The settings of an acceptor while they can still change.
#[derive(Debug)]
pub struct TlsAcceptorBuilder(pub AcceptorConfig);

impl View for TlsAcceptorBuilder {
    type V = AcceptorSettings;

    open spec fn view(&self) -> AcceptorSettings {
        self.0@
    }
}

impl TlsAcceptorBuilder {
    /// Whether ALPN can be set on this builder.
    pub const SUPPORTS_ALPN: bool = true;

    /// A builder for a server with this certificate and key, given whether
    /// the engine takes the two as an identity. No ALPN protocol is set.
    pub fn with_identity(cert: &Cert, key: &PrivateKey, accepted: bool) -> (r: Result<
        TlsAcceptorBuilder,
        Error,
    >)
        ensures
            match r {
                Ok(builder) => accepted && builder@ == (AcceptorSettings {
                    cert: cert@,
                    key: key@,
                    alpn_protocols: Seq::empty(),
                }),
                Err(e) => !accepted && e == Error::Config(ConfigError::RejectedIdentity),
            },
    {
        if !accepted {
            return Err(Error::Config(ConfigError::RejectedIdentity));
        }
        let config = AcceptorConfig {
            cert: cert.clone(),
            key: key.clone(),
            alpn_protocols: Vec::new(),
        };
        assert(names(config.alpn_protocols@) =~= Seq::<Seq<u8>>::empty());
        Ok(TlsAcceptorBuilder(config))
    }

    /// A builder for a server with this certificate and key, if the engine
    /// takes the two as an identity. No ALPN protocol is set.
    ///
    /// Whether the engine takes them is the engine's word at the time of the
    /// call, and nothing is said of it here: the builder, where there is one,
    /// holds this certificate and this key, and the error is always the same.
    pub fn from_cert_and_key(cert: &Cert, key: &PrivateKey) -> (r: Result<
        TlsAcceptorBuilder,
        Error,
    >)
        ensures
            match r {
                Ok(builder) => builder@ == (AcceptorSettings {
                    cert: cert@,
                    key: key@,
                    alpn_protocols: Seq::empty(),
                }),
                Err(e) => e == Error::Config(ConfigError::RejectedIdentity),
            },
    {
        let accepted = accepts_server_identity(cert.get_der(), key.get_der());
        Self::with_identity(cert, key, accepted)
    }

    /// Sets the ALPN protocols that the server knows.
    pub fn set_alpn_protocols(&mut self, protocols: &[&[u8]]) -> (r: Result<(), Error>)
        ensures
            r is Ok,
            final(self)@ == (AcceptorSettings {
                alpn_protocols: borrowed_names(protocols@),
                ..old(self)@
            }),
    {
        self.0.alpn_protocols = copy_names(protocols);
        Ok(())
    }

    /// Ends the building.
    pub fn build(self) -> (r: Result<TlsAcceptor, Error>)
        ensures
            r matches Ok(acceptor) && acceptor.config()@ == self@,
    {
        Ok(TlsAcceptor(Arc::new(self.0)))
    }
}

/// A finished server configuration, shared by all the connections accepted
/// with it and never changed.
#[derive(Debug)]
pub struct TlsAcceptor(pub Arc<AcceptorConfig>);

impl TlsAcceptor {
    /// The configuration of the acceptor.
    pub open spec fn config(&self) -> AcceptorConfig {
        *self.0
    }

    /// The configuration of the acceptor.
    pub fn get_config(&self) -> (config: &AcceptorConfig)
        ensures
            *config == self.config(),
    {
        &*self.0
    }

    /// Starts the server side of a connection over `transport`, with the
    /// session that the engine has made for it. No name is checked: a server
    /// does not hold its own identity against a name that the client sends.
    /// The transport goes into a new bridge, and session and bridge into a
    /// driver that is in the middle of the handshake.
    pub fn accept<E, S>(&self, transport: S, session: E) -> (driver: HandshakeDriver<E, S>)
        ensures
            driver.is_fresh(session, transport),
    {
        HandshakeDriver::started(TlsStream::new(session, transport))
    }
}

} // verus!
