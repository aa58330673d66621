//! The transport: the byte stream that a handshake runs over, whatever made
//! it, held so that it can be handed over exactly once.

use vstd::prelude::*;
use crate::channel::SshChannel;
use crate::error::WrappedError;

verus! {

/// How a stream was obtained.
#[derive(Clone, Copy, Debug, PartialEq, Eq, Structural)]
pub enum TransportKind {
    /// A TCP connection.
    Socket,
    /// A child process: reads come from its output, writes go to its input.
    Process,
    /// A channel of a session that is already open.
    NestedChannel,
    /// A connection through a SOCKS5 proxy, after its handshake.
    Socks5Proxy,
    /// A connection through an HTTP proxy, after its CONNECT.
    HttpProxy,
}

/// What has to be done to a stream that is dropped without having been used.
#[derive(Clone, Copy, Debug, PartialEq, Eq, Structural)]
pub enum TransportCleanup {
    /// Shut the connection down, ignoring any error.
    GracefulShutdown,
    /// Kill the process, ignoring any error.
    ForcedKill,
    /// Nothing beyond releasing the value.
    OrdinaryRelease,
}

impl TransportKind {
    /// The cleanup that a stream of this kind needs.
    pub open spec fn cleanup_of(self) -> TransportCleanup {
        match self {
            TransportKind::Socket => TransportCleanup::GracefulShutdown,
            TransportKind::Process => TransportCleanup::ForcedKill,
            TransportKind::NestedChannel => TransportCleanup::OrdinaryRelease,
            TransportKind::Socks5Proxy => TransportCleanup::OrdinaryRelease,
            TransportKind::HttpProxy => TransportCleanup::OrdinaryRelease,
        }
    }

    /// Whether a stream of this kind writes several buffers in one call.
    pub open spec fn vectored(self) -> bool {
        match self {
            TransportKind::Socket => true,
            TransportKind::Process => false,
            TransportKind::NestedChannel => false,
            TransportKind::Socks5Proxy => true,
            TransportKind::HttpProxy => true,
        }
    }

    /// The cleanup that a stream of this kind needs when it is abandoned.
    pub fn cleanup(self) -> (action: TransportCleanup)
        ensures
            action == self.cleanup_of(),
    {
        match self {
            TransportKind::Socket => TransportCleanup::GracefulShutdown,
            TransportKind::Process => TransportCleanup::ForcedKill,
            TransportKind::NestedChannel => TransportCleanup::OrdinaryRelease,
            TransportKind::Socks5Proxy => TransportCleanup::OrdinaryRelease,
            TransportKind::HttpProxy => TransportCleanup::OrdinaryRelease,
        }
    }

    /// Whether a stream of this kind writes several buffers in one call.
    pub fn is_write_vectored(self) -> (native: bool)
        ensures
            native == self.vectored(),
    {
        match self {
            TransportKind::Socket => true,
            TransportKind::Process => false,
            TransportKind::NestedChannel => false,
            TransportKind::Socks5Proxy => true,
            TransportKind::HttpProxy => true,
        }
    }
}

/// A live stream, tagged with how it was obtained. `S` is the caller's type
/// of a stream, `C` that of an open channel.
#[derive(Debug, PartialEq, Eq)]
pub enum SshTransportInner<S, C> {
    Socket(S),
    Command(S),
    SshChannel(C),
    SocksProxy(S),
    HttpProxy(S),
}

impl<S, C> SshTransportInner<S, C> {
    /// How this stream was obtained.
    pub open spec fn kind_of(self) -> TransportKind {
        match self {
            SshTransportInner::Socket(_) => TransportKind::Socket,
            SshTransportInner::Command(_) => TransportKind::Process,
            SshTransportInner::SshChannel(_) => TransportKind::NestedChannel,
            SshTransportInner::SocksProxy(_) => TransportKind::Socks5Proxy,
            SshTransportInner::HttpProxy(_) => TransportKind::HttpProxy,
        }
    }

    /// How this stream was obtained.
    pub fn kind(&self) -> (kind: TransportKind)
        ensures
            kind == self.kind_of(),
    {
        match self {
            SshTransportInner::Socket(_) => TransportKind::Socket,
            SshTransportInner::Command(_) => TransportKind::Process,
            SshTransportInner::SshChannel(_) => TransportKind::NestedChannel,
            SshTransportInner::SocksProxy(_) => TransportKind::Socks5Proxy,
            SshTransportInner::HttpProxy(_) => TransportKind::HttpProxy,
        }
    }

    /// What to do to this stream when it is dropped unused.
    pub fn cleanup(&self) -> (action: TransportCleanup)
        ensures
            action == self.kind_of().cleanup_of(),
    {
        self.kind().cleanup()
    }

    /// Whether this stream writes several buffers in one call. Where it does
    /// not, a vectored write reports that it is not vectored.
    pub fn is_write_vectored(&self) -> (native: bool)
        ensures
            native == self.kind_of().vectored(),
    {
        self.kind().is_write_vectored()
    }
}

/// Why no connection through an HTTP proxy came about.
#[derive(Clone, Debug, PartialEq, Eq)]
pub enum HttpProxyFailure {
    /// The proxy could not be reached.
    Connection(String),
    /// The proxy answered, and refused the CONNECT.
    Handshake(String),
}

/// A transport: a stream that can be taken out once.
#[derive(Debug, PartialEq, Eq)]
pub struct SshTransport<S, C> {
    slot: Option<SshTransportInner<S, C>>,
}

impl<S, C> SshTransport<S, C> {
    /// The stream that is still to be taken, if any.
    pub closed spec fn pending(self) -> Option<SshTransportInner<S, C>> {
        self.slot
    }

    /// What one `take` does: it hands out what was pending and leaves
    /// nothing.
    pub open spec fn take_step(
        before: Self,
        after: Self,
        taken: Option<SshTransportInner<S, C>>,
    ) -> bool {
        taken == before.pending() && after.pending() is None
    }

    /// What a factory returns: a transport that holds `stream`, or the
    /// failure to obtain one.
    pub open spec fn made_of(
        made: Result<Self, WrappedError>,
        stream: Result<SshTransportInner<S, C>, WrappedError>,
    ) -> bool {
        match stream {
            Ok(inner) => made matches Ok(transport) && transport.pending() == Some(inner),
            Err(error) => made == Err::<Self, WrappedError>(error),
        }
    }

    /// A transport over the TCP connection that a connection attempt gave.
    /// A failed attempt is a stream failure, with the attempt's words.
    pub fn new_socket(connected: Result<S, String>) -> (made: Result<Self, WrappedError>)
        ensures
            Self::made_of(
                made,
                match connected {
                    Ok(stream) => Ok(SshTransportInner::Socket(stream)),
                    Err(text) => Err(WrappedError::Io(text)),
                },
            ),
    {
        match connected {
            Ok(stream) => Ok(SshTransport { slot: Some(SshTransportInner::Socket(stream)) }),
            Err(text) => Err(WrappedError::Io(text)),
        }
    }

    /// A transport over the process that a spawn, with input and output
    /// piped, gave. A failed spawn is a stream failure, with its words.
    pub fn new_command(spawned: Result<S, String>) -> (made: Result<Self, WrappedError>)
        ensures
            Self::made_of(
                made,
                match spawned {
                    Ok(child) => Ok(SshTransportInner::Command(child)),
                    Err(text) => Err(WrappedError::Io(text)),
                },
            ),
    {
        match spawned {
            Ok(child) => Ok(SshTransport { slot: Some(SshTransportInner::Command(child)) }),
            Err(text) => Err(WrappedError::Io(text)),
        }
    }

    /// A transport that tunnels through `channel`, which it consumes. It
    /// fails, and leaves the handle as it was, when the channel had been
    /// taken before.
    pub fn new_ssh_channel(channel: &mut SshChannel<C>) -> (made: Result<Self, WrappedError>)
        ensures
            SshChannel::take_step(*old(channel), *final(channel), old(channel).held()),
            Self::made_of(
                made,
                match old(channel).held() {
                    Some(handle) => Ok(SshTransportInner::SshChannel(handle)),
                    None => Err(WrappedError::ChannelAlreadyConsumed),
                },
            ),
    {
        match channel.take() {
            Some(handle) => Ok(SshTransport { slot: Some(SshTransportInner::SshChannel(handle)) }),
            None => Err(WrappedError::ChannelAlreadyConsumed),
        }
    }

    /// A transport over the stream that a SOCKS5 handshake gave. A failed
    /// attempt is a failure of that handshake, with its words.
    pub fn new_socks_proxy(established: Result<S, String>) -> (made: Result<Self, WrappedError>)
        ensures
            Self::made_of(
                made,
                match established {
                    Ok(stream) => Ok(SshTransportInner::SocksProxy(stream)),
                    Err(text) => Err(WrappedError::Socks(text)),
                },
            ),
    {
        match established {
            Ok(stream) => Ok(SshTransport { slot: Some(SshTransportInner::SocksProxy(stream)) }),
            Err(text) => Err(WrappedError::Socks(text)),
        }
    }

    /// A transport over the connection that an HTTP CONNECT gave. Where the
    /// proxy could not be reached, that is a stream failure; where it
    /// refused, a failure of the handshake.
    pub fn new_http_proxy(established: Result<S, HttpProxyFailure>) -> (made: Result<
        Self,
        WrappedError,
    >)
        ensures
            Self::made_of(
                made,
                match established {
                    Ok(stream) => Ok(SshTransportInner::HttpProxy(stream)),
                    Err(HttpProxyFailure::Connection(text)) => Err(WrappedError::Io(text)),
                    Err(HttpProxyFailure::Handshake(text)) => Err(WrappedError::Http(text)),
                },
            ),
    {
        match established {
            Ok(stream) => Ok(SshTransport { slot: Some(SshTransportInner::HttpProxy(stream)) }),
            Err(HttpProxyFailure::Connection(text)) => Err(WrappedError::Io(text)),
            Err(HttpProxyFailure::Handshake(text)) => Err(WrappedError::Http(text)),
        }
    }

    /// Whether the stream has been taken.
    pub fn is_consumed(&self) -> (consumed: bool)
        ensures
            consumed == (self.pending() is None),
    {
        self.slot.is_none()
    }

    /// Takes the stream out. The first call yields it; every later call
    /// yields nothing.
    pub fn take(&mut self) -> (taken: Option<SshTransportInner<S, C>>)
        ensures
            Self::take_step(*old(self), *final(self), taken),
    {
        self.slot.take()
    }

    /// A transport that has been taken from stays empty: whatever it held,
    /// a second `take` yields nothing.
    pub proof fn second_take_is_empty(
        start: Self,
        once: Self,
        twice: Self,
        first: Option<SshTransportInner<S, C>>,
        second: Option<SshTransportInner<S, C>>,
    )
        requires
            Self::take_step(start, once, first),
            Self::take_step(once, twice, second),
        ensures
            first == start.pending(),
            second is None,
            twice.pending() is None,
    {
    }
}

} // verus!
