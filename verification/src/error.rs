//! Failures, and the class each belongs to.

use vstd::prelude::*;

verus! {

/// The classes of failure that a host can tell apart.
#[derive(Clone, Copy, Debug, PartialEq, Eq, Structural)]
pub enum ErrorCategory {
    /// A stream failed.
    Io,
    /// The protocol engine reported a failure of the SSH or SFTP exchange.
    Protocol,
    /// Key material could not be read or decrypted.
    KeyFormat,
    /// No agent could be reached, or the agent refused.
    AgentFailure,
    /// A SOCKS5 or HTTP CONNECT negotiation failed.
    ProxyHandshakeFailure,
    /// A transport or a channel was used after it had been consumed.
    PreconditionViolation,
    /// Connection establishment ran past its deadline.
    Timeout,
    /// The host's own callback failed.
    HostCallbackFailure,
}

/// A failure of an operation.
///
/// The variants with a text carry the description that the collaborator at
/// fault gave of its own error. The others are conditions that this library
/// detects itself.
#[derive(Clone, Debug, PartialEq, Eq)]
pub enum WrappedError {
    /// A stream-level failure.
    Io(String),
    /// A failure that the protocol engine reported.
    Russh(String),
    /// A failure of key handling.
    RusshKeys(String),
    /// A failure of the agent during authentication.
    AgentAuthError(String),
    /// A failure of the SFTP session.
    Sftp(String),
    /// A failure of the SOCKS5 handshake.
    Socks(String),
    /// A failure of the HTTP CONNECT handshake.
    Http(String),
    /// A failure of a host callback.
    Node(String),
    /// The transport had already been handed to a handshake.
    TransportAlreadyUsed,
    /// The channel had already been taken out of its handle.
    ChannelAlreadyConsumed,
    /// The handshake did not complete before its deadline.
    ConnectionTimeout,
    /// Data could not be written to a channel or to an agent stream.
    SendFailed,
    /// The bits of an SFTP open mode are not all known flags.
    IncorrectMode,
    /// The number of keyboard-interactive responses differs from the number
    /// of prompts that the server sent.
    ResponseCountMismatch { expected: usize, received: usize },
    /// The agent that a descriptor names does not exist on this platform.
    AgentUnavailable,
}

impl WrappedError {
    /// The class of this failure.
    pub open spec fn category_of(self) -> ErrorCategory {
        match self {
            WrappedError::Io(_) => ErrorCategory::Io,
            WrappedError::Russh(_) => ErrorCategory::Protocol,
            WrappedError::RusshKeys(_) => ErrorCategory::KeyFormat,
            WrappedError::AgentAuthError(_) => ErrorCategory::AgentFailure,
            WrappedError::Sftp(_) => ErrorCategory::Protocol,
            WrappedError::Socks(_) => ErrorCategory::ProxyHandshakeFailure,
            WrappedError::Http(_) => ErrorCategory::ProxyHandshakeFailure,
            WrappedError::Node(_) => ErrorCategory::HostCallbackFailure,
            WrappedError::TransportAlreadyUsed => ErrorCategory::PreconditionViolation,
            WrappedError::ChannelAlreadyConsumed => ErrorCategory::PreconditionViolation,
            WrappedError::ConnectionTimeout => ErrorCategory::Timeout,
            WrappedError::SendFailed => ErrorCategory::Io,
            WrappedError::IncorrectMode => ErrorCategory::Protocol,
            WrappedError::ResponseCountMismatch { .. } => ErrorCategory::Protocol,
            WrappedError::AgentUnavailable => ErrorCategory::AgentFailure,
        }
    }

    /// The text that describes this failure to the host.
    pub open spec fn message_of(self) -> Seq<char> {
        match self {
            WrappedError::Io(text) => text@,
            WrappedError::Russh(text) => text@,
            WrappedError::RusshKeys(text) => text@,
            WrappedError::AgentAuthError(text) => text@,
            WrappedError::Sftp(text) => text@,
            WrappedError::Socks(text) => text@,
            WrappedError::Http(text) => text@,
            WrappedError::Node(text) => text@,
            WrappedError::TransportAlreadyUsed => "Transport already used"@,
            WrappedError::ChannelAlreadyConsumed => "Channel is already consumed"@,
            WrappedError::ConnectionTimeout => "Connection timeout"@,
            WrappedError::SendFailed => "Failed to send data to channel"@,
            WrappedError::IncorrectMode => "incorrect mode"@,
            WrappedError::ResponseCountMismatch { .. } => "Wrong number of responses"@,
            WrappedError::AgentUnavailable => "AgentFailure"@,
        }
    }

    /// The class of this failure.
    pub fn category(&self) -> (class: ErrorCategory)
        ensures
            class == self.category_of(),
    {
        match self {
            WrappedError::Io(_) => ErrorCategory::Io,
            WrappedError::Russh(_) => ErrorCategory::Protocol,
            WrappedError::RusshKeys(_) => ErrorCategory::KeyFormat,
            WrappedError::AgentAuthError(_) => ErrorCategory::AgentFailure,
            WrappedError::Sftp(_) => ErrorCategory::Protocol,
            WrappedError::Socks(_) => ErrorCategory::ProxyHandshakeFailure,
            WrappedError::Http(_) => ErrorCategory::ProxyHandshakeFailure,
            WrappedError::Node(_) => ErrorCategory::HostCallbackFailure,
            WrappedError::TransportAlreadyUsed => ErrorCategory::PreconditionViolation,
            WrappedError::ChannelAlreadyConsumed => ErrorCategory::PreconditionViolation,
            WrappedError::ConnectionTimeout => ErrorCategory::Timeout,
            WrappedError::SendFailed => ErrorCategory::Io,
            WrappedError::IncorrectMode => ErrorCategory::Protocol,
            WrappedError::ResponseCountMismatch { .. } => ErrorCategory::Protocol,
            WrappedError::AgentUnavailable => ErrorCategory::AgentFailure,
        }
    }

    /// The text that describes this failure to the host.
    pub fn message(&self) -> (text: String)
        ensures
            text@ == self.message_of(),
    {
        match self {
            WrappedError::Io(text) => text.clone(),
            WrappedError::Russh(text) => text.clone(),
            WrappedError::RusshKeys(text) => text.clone(),
            WrappedError::AgentAuthError(text) => text.clone(),
            WrappedError::Sftp(text) => text.clone(),
            WrappedError::Socks(text) => text.clone(),
            WrappedError::Http(text) => text.clone(),
            WrappedError::Node(text) => text.clone(),
            WrappedError::TransportAlreadyUsed => "Transport already used".to_owned(),
            WrappedError::ChannelAlreadyConsumed => "Channel is already consumed".to_owned(),
            WrappedError::ConnectionTimeout => "Connection timeout".to_owned(),
            WrappedError::SendFailed => "Failed to send data to channel".to_owned(),
            WrappedError::IncorrectMode => "incorrect mode".to_owned(),
            WrappedError::ResponseCountMismatch { .. } => "Wrong number of responses".to_owned(),
            WrappedError::AgentUnavailable => "AgentFailure".to_owned(),
        }
    }
}

} // verus!
