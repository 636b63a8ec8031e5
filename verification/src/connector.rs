//! The client side: a builder of settings, and the connector that it builds.
//!
//! The settings are plain values. Turning them into a configuration of the
//! engine, and running sessions on it, is the work of the code around this
//! library; what the settings are, how they may change and when a connection
//! may start is decided here.

use crate::cert::Cert;
use crate::engine::{accepts_trust_anchor, dns_name_accepted, trust_anchor_accepted};
use crate::error::{ConfigError, Error, FormatError};
use crate::handshake::{HandshakeDriver, TlsStream};
use crate::host::HostName;
use std::sync::Arc;
use vstd::prelude::*;
use vstd::slice::slice_to_vec;

verus! {

/// The DER bytes of each certificate of a list.
pub open spec fn ders(certs: Seq<Cert>) -> Seq<Seq<u8>> {
    certs.map_values(|cert: Cert| cert@)
}

/// The bytes of each protocol name of a list.
pub open spec fn names(protocols: Seq<Vec<u8>>) -> Seq<Seq<u8>> {
    protocols.map_values(|name: Vec<u8>| name@)
}

/// The bytes of each protocol name of a borrowed list.
pub open spec fn borrowed_names(protocols: Seq<&[u8]>) -> Seq<Seq<u8>> {
    protocols.map_values(|name: &[u8]| name@)
}

/// Whether host name verification may be set to `verify` when it stands at
/// `current`, and where it stands afterwards. It can be switched off, and
/// never on again.
pub open spec fn verify_hostname_after(current: bool, verify: bool) -> Result<bool, ConfigError> {
    if verify && !current {
        Err(ConfigError::VerifyHostnameReenabled)
    } else {
        Ok(verify)
    }
}

/// Switching host name verification off always works, and switching it on
/// after that always fails.
pub proof fn lemma_verify_hostname_is_one_way(current: bool)
    ensures
        verify_hostname_after(current, false) == Ok::<bool, ConfigError>(false),
        verify_hostname_after(verify_hostname_after(current, false)->Ok_0, true) == Err::<
            bool,
            ConfigError,
        >(ConfigError::VerifyHostnameReenabled),
{
}

/// Copies a list of protocol names.
pub(crate) fn copy_names(protocols: &[&[u8]]) -> (copied: Vec<Vec<u8>>)
    ensures
        names(copied@) == borrowed_names(protocols@),
{
    let mut copied: Vec<Vec<u8>> = Vec::new();
    let mut i: usize = 0;
    while i < protocols.len()
        invariant
            i <= protocols.len(),
            copied@.len() == i,
            forall|j: int| 0 <= j < i ==> (#[trigger] copied@[j])@ == protocols@[j]@,
        decreases protocols.len() - i,
    {
        copied.push(slice_to_vec(protocols[i]));
        i = i + 1;
    }
    assert(names(copied@) =~= borrowed_names(protocols@));
    copied
}

/// The settings of a connector, as mathematical values.
pub struct ConnectorSettings {
    /// The trust anchors that were added, as DER, in the order of adding.
    pub roots: Seq<Seq<u8>>,
    /// The ALPN protocol names, the most preferred first.
    pub alpn_protocols: Seq<Seq<u8>>,
    /// Whether the server's certificate is verified.
    pub verify_hostname: bool,
}

/// The settings of a connector while they can still change.
#[derive(Debug)]
pub struct TlsConnectorBuilder {
    roots: Vec<Cert>,
    alpn_protocols: Vec<Vec<u8>>,
    verify_hostname: bool,
}

impl View for TlsConnectorBuilder {
    type V = ConnectorSettings;

    closed spec fn view(&self) -> ConnectorSettings {
        ConnectorSettings {
            roots: ders(self.roots@),
            alpn_protocols: names(self.alpn_protocols@),
            verify_hostname: self.verify_hostname,
        }
    }
}

impl TlsConnectorBuilder {
    /// Whether ALPN can be set on this builder.
    pub const SUPPORTS_ALPN: bool = true;

    /// Sets the ALPN protocols that the client offers, in this order.
    pub fn set_alpn_protocols(&mut self, protocols: &[&[u8]]) -> (r: Result<(), Error>)
        ensures
            r is Ok,
            final(self)@ == (ConnectorSettings {
                alpn_protocols: borrowed_names(protocols@),
                ..old(self)@
            }),
    {
        self.alpn_protocols = copy_names(protocols);
        Ok(())
    }

    /// Sets whether the server's certificate is verified.
    ///
    /// With `false` the connector will accept any certificate, whatever its
    /// chain and its name: this is insecure, and meant to be. Once that has
    /// been asked for, `true` is an error and changes nothing.
    pub fn set_verify_hostname(&mut self, verify: bool) -> (r: Result<(), Error>)
        ensures
            match verify_hostname_after(old(self)@.verify_hostname, verify) {
                Ok(verifies) => r is Ok && final(self)@ == (ConnectorSettings {
                    verify_hostname: verifies,
                    ..old(self)@
                }),
                Err(refusal) => r == Err::<(), Error>(Error::Config(refusal)) && final(self)@ == old(
                    self,
                )@,
            },
    {
        if !verify {
            self.verify_hostname = false;
        } else {
            if !self.verify_hostname {
                return Err(Error::Config(ConfigError::VerifyHostnameReenabled));
            }
        }
        Ok(())
    }

    /// Adds one trust anchor, if the engine can read the certificate as one,
    /// and hands the builder back for the next call.
    pub fn add_root_certificate(&mut self, cert: &Cert) -> (r: Result<&mut Self, Error>)
        ensures
            match r {
                Ok(builder) => trust_anchor_accepted(cert@) && builder@ == (ConnectorSettings {
                    roots: old(self)@.roots.push(cert@),
                    ..old(self)@
                }) && *final(self) == *final(builder),
                Err(e) => !trust_anchor_accepted(cert@) && e == Error::Format(
                    FormatError::RejectedRoot,
                ) && final(self)@ == old(self)@,
            },
    {
        if !accepts_trust_anchor(cert.get_der()) {
            return Err(Error::Format(FormatError::RejectedRoot));
        }
        let ghost before = self.roots@;
        self.roots.push(cert.clone());
        assert(ders(self.roots@) =~= ders(before).push(cert@));
        Ok(self)
    }

    /// Whether the server's certificate is verified.
    pub fn verify_hostname(&self) -> (verifies: bool)
        ensures
            verifies == self@.verify_hostname,
    {
        self.verify_hostname
    }

    /// The ALPN protocols that the client offers.
    pub fn alpn_protocols(&self) -> (protocols: &Vec<Vec<u8>>)
        ensures
            names(protocols@) == self@.alpn_protocols,
    {
        &self.alpn_protocols
    }

    /// The trust anchors that were added.
    pub fn root_certificates(&self) -> (roots: &Vec<Cert>)
        ensures
            ders(roots@) == self@.roots,
    {
        &self.roots
    }

    /// Ends the building. A connector without a trust anchor of its own
    /// trusts the bundled default roots.
    pub fn build(self) -> (r: Result<TlsConnector, Error>)
        ensures
            r matches Ok(connector) && connector.config()@ == self@.built(),
    {
        let trust = if self.roots.len() == 0 {
            TrustRoots::Bundled
        } else {
            TrustRoots::Anchors(self.roots)
        };
        let config = ConnectorConfig {
            trust,
            alpn_protocols: self.alpn_protocols,
            verify_hostname: self.verify_hostname,
        };
        Ok(TlsConnector { config: Arc::new(config) })
    }
}

impl ConnectorSettings {
    /// The settings of a fresh builder: no trust anchor, no ALPN protocol,
    /// and the server's certificate is verified.
    pub open spec fn initial() -> ConnectorSettings {
        ConnectorSettings {
            roots: Seq::empty(),
            alpn_protocols: Seq::empty(),
            verify_hostname: true,
        }
    }

    /// The policy of the connector that is built from these settings.
    pub open spec fn built(self) -> ConnectorPolicy {
        ConnectorPolicy {
            trust: if self.roots.len() == 0 {
                Trust::Bundled
            } else {
                Trust::Anchors(self.roots)
            },
            alpn_protocols: self.alpn_protocols,
            verify_hostname: self.verify_hostname,
        }
    }
}

/// Where a connector's trust comes from.
#[derive(Debug)]
pub enum TrustRoots {
    /// The default roots that are bundled with the engine.
    Bundled,
    /// These trust anchors and no others. There is at least one.
    Anchors(Vec<Cert>),
}

/// Where a connector's trust comes from, as a mathematical value.
pub enum Trust {
    Bundled,
    Anchors(Seq<Seq<u8>>),
}

impl View for TrustRoots {
    type V = Trust;

    open spec fn view(&self) -> Trust {
        match *self {
            TrustRoots::Bundled => Trust::Bundled,
            TrustRoots::Anchors(certs) => Trust::Anchors(ders(certs@)),
        }
    }
}

/// The finished configuration of a connector.
#[derive(Debug)]
pub struct ConnectorConfig {
    pub trust: TrustRoots,
    pub alpn_protocols: Vec<Vec<u8>>,
    pub verify_hostname: bool,
}

/// The finished configuration of a connector, as mathematical values.
pub struct ConnectorPolicy {
    pub trust: Trust,
    pub alpn_protocols: Seq<Seq<u8>>,
    pub verify_hostname: bool,
}

impl View for ConnectorConfig {
    type V = ConnectorPolicy;

    open spec fn view(&self) -> ConnectorPolicy {
        ConnectorPolicy {
            trust: self.trust@,
            alpn_protocols: names(self.alpn_protocols@),
            verify_hostname: self.verify_hostname,
        }
    }
}

/// A finished client configuration, shared by all the connections made
/// with it and never changed.
#[derive(Debug)]
pub struct TlsConnector {
    config: Arc<ConnectorConfig>,
}

impl TlsConnector {
    /// The configuration of the connector.
    pub closed spec fn config(&self) -> ConnectorConfig {
        *self.config
    }

    /// A builder with the initial settings.
    pub fn builder() -> (r: Result<TlsConnectorBuilder, Error>)
        ensures
            r matches Ok(builder) && builder@ == ConnectorSettings::initial(),
    {
        let builder = TlsConnectorBuilder {
            roots: Vec::new(),
            alpn_protocols: Vec::new(),
            verify_hostname: true,
        };
        assert(ders(builder.roots@) =~= Seq::<Seq<u8>>::empty());
        assert(names(builder.alpn_protocols@) =~= Seq::<Seq<u8>>::empty());
        Ok(builder)
    }

    /// The configuration of the connector.
    pub fn get_config(&self) -> (config: &ConnectorConfig)
        ensures
            *config == self.config(),
    {
        &*self.config
    }

    /// The configuration, shared: for the sessions of the engine.
    pub fn share_config(&self) -> (config: Arc<ConnectorConfig>)
        ensures
            *config == self.config(),
    {
        Arc::clone(&self.config)
    }

    /// Starts a connection to `domain` over `transport`.
    ///
    /// The domain must be a well-formed host name. For such a name the engine
    /// makes its session: `new_session` stands for the engine, which binds the
    /// session to its configuration and to the name that it is handed, and
    /// may count on that name to be well formed. The transport goes into a
    /// new bridge, and session and bridge into a driver that is in the middle
    /// of the handshake. For any other name no session is made and the
    /// transport is dropped.
    pub fn connect<E, S, F: FnOnce(HostName) -> E>(
        &self,
        domain: &str,
        transport: S,
        new_session: F,
    ) -> (r: Result<HandshakeDriver<E, S>, Error>)
        requires
            forall|host: HostName| host@ == domain@ ==> #[trigger] new_session.requires((host,)),
        ensures
            match r {
                Ok(driver) => {
                    &&& dns_name_accepted(domain@)
                    &&& driver matches HandshakeDriver::MidHandshake(stream)
                    &&& exists|host: HostName|
                        host@ == domain@ && #[trigger] new_session.ensures((host,), stream.session)
                    &&& stream.is_fresh(stream.session, transport)
                },
                Err(e) => !dns_name_accepted(domain@) && e == Error::Config(
                    ConfigError::InvalidHostName,
                ),
            },
    {
        match HostName::parse(domain) {
            Some(host) => {
                let session = new_session(host);
                Ok(HandshakeDriver::started(TlsStream::new(session, transport)))
            },
            None => Err(Error::Config(ConfigError::InvalidHostName)),
        }
    }
}

} // verus!
