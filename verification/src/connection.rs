//! Connection establishment: what is settled before the handshake starts, and
//! what its outcome means.

use vstd::prelude::*;
use crate::algorithms::{restrict_to_supported, supported_among, AlgorithmKind};
use crate::error::WrappedError;
use crate::session::SshClient;
use crate::transport::{SshTransport, SshTransportInner};

verus! {

/// The algorithm names to offer, by family, most preferred first. A family
/// without a list keeps the engine's own order.
#[derive(Debug, PartialEq, Eq)]
pub struct Preferred {
    pub cipher: Option<Vec<String>>,
    pub kex: Option<Vec<String>>,
    pub key: Option<Vec<String>>,
    pub mac: Option<Vec<String>>,
    pub compression: Option<Vec<String>>,
}

/// The settings of one connection.
#[derive(Debug, PartialEq, Eq)]
pub struct ClientConfig {
    pub preferred: Preferred,
    /// After this many seconds without traffic a keepalive is sent; without
    /// a value none is.
    pub keepalive_interval_seconds: Option<u64>,
    /// After this many unanswered keepalives the connection is closed.
    pub keepalive_max: usize,
}

/// All that a handshake needs: the stream, the settings, and the deadline in
/// seconds, if there is one.
#[derive(Debug, PartialEq, Eq)]
pub struct Connection<S, C> {
    pub stream: SshTransportInner<S, C>,
    pub config: ClientConfig,
    pub timeout_seconds: Option<u64>,
}

/// How a handshake ended. `H` is the caller's type of an open session.
#[derive(Debug)]
pub enum HandshakeOutcome<H> {
    /// The session is open.
    Established(H),
    /// The stream or the engine failed.
    Failed(WrappedError),
    /// The deadline passed first, and the handshake was abandoned.
    TimedOut,
}

/// The names of a list, where there is one.
pub open spec fn names_of(list: Option<Vec<String>>) -> Option<Seq<String>> {
    match list {
        Some(names) => Some(names@),
        None => None,
    }
}

/// What is offered for the family `kind` when the host asks for `requested`:
/// the names of it that the engine knows, in the host's order.
pub open spec fn preference(kind: AlgorithmKind, requested: Option<Vec<String>>) -> Option<
    Seq<String>,
> {
    match requested {
        Some(names) => Some(supported_among(kind, names@)),
        None => None,
    }
}

/// The settings that `connect` derives from the host's wishes.
pub open spec fn settled(
    config: ClientConfig,
    cipher_algos: Option<Vec<String>>,
    kex_algos: Option<Vec<String>>,
    key_algos: Option<Vec<String>>,
    mac_algos: Option<Vec<String>>,
    compression_algos: Option<Vec<String>>,
    keepalive_interval_seconds: Option<u32>,
    keepalive_max: u32,
) -> bool {
    &&& names_of(config.preferred.cipher) == preference(AlgorithmKind::Cipher, cipher_algos)
    &&& names_of(config.preferred.kex) == preference(AlgorithmKind::KeyExchange, kex_algos)
    &&& names_of(config.preferred.key) == preference(AlgorithmKind::HostKey, key_algos)
    &&& names_of(config.preferred.mac) == preference(AlgorithmKind::Mac, mac_algos)
    &&& names_of(config.preferred.compression) == preference(
        AlgorithmKind::Compression,
        compression_algos,
    )
    &&& config.keepalive_interval_seconds == seconds(keepalive_interval_seconds)
    &&& config.keepalive_max == keepalive_max
}

/// A number of seconds, widened.
pub open spec fn seconds(count: Option<u32>) -> Option<u64> {
    match count {
        Some(n) => Some(n as u64),
        None => None,
    }
}

fn prefer(kind: AlgorithmKind, requested: Option<Vec<String>>) -> (offered: Option<Vec<String>>)
    ensures
        names_of(offered) == preference(kind, requested),
{
    match requested {
        Some(names) => Some(restrict_to_supported(kind, names)),
        None => None,
    }
}

fn widen(count: Option<u32>) -> (wide: Option<u64>)
    ensures
        wide == seconds(count),
{
    match count {
        Some(n) => Some(n as u64),
        None => None,
    }
}

/// Prepares a connection over `transport`, which it consumes.
///
/// Each list of algorithm names is cut down to the names that the engine
/// knows, in the host's order. A transport that was used before is refused;
/// nothing else is.
pub fn connect<S, C>(
    transport: &mut SshTransport<S, C>,
    cipher_algos: Option<Vec<String>>,
    kex_algos: Option<Vec<String>>,
    key_algos: Option<Vec<String>>,
    mac_algos: Option<Vec<String>>,
    compression_algos: Option<Vec<String>>,
    connection_timeout_seconds: Option<u32>,
    keepalive_interval_seconds: Option<u32>,
    keepalive_max: u32,
) -> (prepared: Result<Connection<S, C>, WrappedError>)
    ensures
        SshTransport::take_step(*old(transport), *final(transport), old(transport).pending()),
        match old(transport).pending() {
            Some(stream) => {
                &&& prepared matches Ok(connection)
                &&& connection.stream == stream
                &&& connection.timeout_seconds == seconds(connection_timeout_seconds)
                &&& settled(
                    connection.config,
                    cipher_algos,
                    kex_algos,
                    key_algos,
                    mac_algos,
                    compression_algos,
                    keepalive_interval_seconds,
                    keepalive_max,
                )
            },
            None => prepared == Err::<Connection<S, C>, WrappedError>(
                WrappedError::TransportAlreadyUsed,
            ),
        },
{
    let preferred = Preferred {
        cipher: prefer(AlgorithmKind::Cipher, cipher_algos),
        kex: prefer(AlgorithmKind::KeyExchange, kex_algos),
        key: prefer(AlgorithmKind::HostKey, key_algos),
        mac: prefer(AlgorithmKind::Mac, mac_algos),
        compression: prefer(AlgorithmKind::Compression, compression_algos),
    };
    let config = ClientConfig {
        preferred,
        keepalive_interval_seconds: widen(keepalive_interval_seconds),
        keepalive_max: keepalive_max as usize,
    };
    match transport.take() {
        Some(stream) => Ok(
            Connection { stream, config, timeout_seconds: widen(connection_timeout_seconds) },
        ),
        None => Err(WrappedError::TransportAlreadyUsed),
    }
}

/// What a handshake's outcome means to the host: a session, the failure as
/// it was reported, or a timeout.
pub fn connected<H>(outcome: HandshakeOutcome<H>) -> (client: Result<SshClient<H>, WrappedError>)
    ensures
        match outcome {
            HandshakeOutcome::Established(handle) => client matches Ok(session)
                && session.handle_of() == handle && session.awaited() is None,
            HandshakeOutcome::Failed(error) => client == Err::<SshClient<H>, WrappedError>(error),
            HandshakeOutcome::TimedOut => client == Err::<SshClient<H>, WrappedError>(
                WrappedError::ConnectionTimeout,
            ),
        },
{
    match outcome {
        HandshakeOutcome::Established(handle) => Ok(SshClient::new(handle)),
        HandshakeOutcome::Failed(error) => Err(error),
        HandshakeOutcome::TimedOut => Err(WrappedError::ConnectionTimeout),
    }
}

} // verus!
