//! A TLS session layer whose decisions are verified.
//!
//! The crate holds the rules of a TLS client and server front end as plain,
//! verified functions: which certificate or key a PEM buffer yields and with
//! which diagnosis it is refused, how a builder's settings may change, what a
//! synchronous read or write reports for one poll of an asynchronous transport,
//! and how a handshake advances from one engine step to the next. The
//! cryptographic engine and the transport stay outside; they are reached
//! through a few trusted declarations whose claims are written next to them.

pub mod acceptor;
pub mod bridge;
pub mod cert;
pub mod connector;
pub mod engine;
pub mod error;
pub mod handshake;
pub mod host;
pub mod pem_text;
pub mod text;

pub use acceptor::{AcceptorConfig, AcceptorSettings, TlsAcceptor, TlsAcceptorBuilder};
pub use bridge::{Bridge, Direction, IoOutcome, Readiness};
pub use cert::{
    is_der_sequence, pair_from_pem_entries, pair_selection, pem_to_cert_key_pair, Cert, Pkcs12,
    Pkcs12AndPassword, PrivateKey,
};
pub use connector::{
    ConnectorConfig, ConnectorPolicy, ConnectorSettings, TlsConnector, TlsConnectorBuilder, Trust,
    TrustRoots,
};
pub use error::{ConfigError, Error, FormatError, HandshakeError, Material, TransportError};
pub use handshake::{EngineStep, HandshakeDriver, HandshakePoll, TlsStream};
pub use host::HostName;
pub use pem_text::{PemBlock, PemEntry};
