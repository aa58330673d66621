use ssh_session::error::{ErrorCategory, WrappedError};

#[test]
fn collaborator_failures_keep_their_text() {
    let text = "connection reset".to_string();
    assert_eq!(WrappedError::Io(text.clone()).message(), text);
    assert_eq!(WrappedError::Russh(text.clone()).message(), text);
    assert_eq!(WrappedError::RusshKeys(text.clone()).message(), text);
    assert_eq!(WrappedError::AgentAuthError(text.clone()).message(), text);
    assert_eq!(WrappedError::Sftp(text.clone()).message(), text);
    assert_eq!(WrappedError::Socks(text.clone()).message(), text);
    assert_eq!(WrappedError::Http(text.clone()).message(), text);
    assert_eq!(WrappedError::Node(text.clone()).message(), text);
}

#[test]
fn own_conditions_have_fixed_texts() {
    assert_eq!(WrappedError::TransportAlreadyUsed.message(), "Transport already used");
    assert_eq!(WrappedError::ChannelAlreadyConsumed.message(), "Channel is already consumed");
    assert_eq!(WrappedError::ConnectionTimeout.message(), "Connection timeout");
    assert_eq!(WrappedError::SendFailed.message(), "Failed to send data to channel");
    assert_eq!(WrappedError::IncorrectMode.message(), "incorrect mode");
    assert_eq!(
        WrappedError::ResponseCountMismatch { expected: 2, received: 1 }.message(),
        "Wrong number of responses"
    );
    assert_eq!(WrappedError::AgentUnavailable.message(), "AgentFailure");
}

#[test]
fn every_failure_has_its_class() {
    let t = String::new();
    assert_eq!(WrappedError::Io(t.clone()).category(), ErrorCategory::Io);
    assert_eq!(WrappedError::Russh(t.clone()).category(), ErrorCategory::Protocol);
    assert_eq!(WrappedError::RusshKeys(t.clone()).category(), ErrorCategory::KeyFormat);
    assert_eq!(WrappedError::AgentAuthError(t.clone()).category(), ErrorCategory::AgentFailure);
    assert_eq!(WrappedError::Sftp(t.clone()).category(), ErrorCategory::Protocol);
    assert_eq!(WrappedError::Socks(t.clone()).category(), ErrorCategory::ProxyHandshakeFailure);
    assert_eq!(WrappedError::Http(t.clone()).category(), ErrorCategory::ProxyHandshakeFailure);
    assert_eq!(WrappedError::Node(t.clone()).category(), ErrorCategory::HostCallbackFailure);
    assert_eq!(WrappedError::TransportAlreadyUsed.category(), ErrorCategory::PreconditionViolation);
    assert_eq!(WrappedError::ChannelAlreadyConsumed.category(), ErrorCategory::PreconditionViolation);
    assert_eq!(WrappedError::ConnectionTimeout.category(), ErrorCategory::Timeout);
    assert_eq!(WrappedError::SendFailed.category(), ErrorCategory::Io);
    assert_eq!(WrappedError::IncorrectMode.category(), ErrorCategory::Protocol);
    assert_eq!(
        WrappedError::ResponseCountMismatch { expected: 1, received: 0 }.category(),
        ErrorCategory::Protocol
    );
    assert_eq!(WrappedError::AgentUnavailable.category(), ErrorCategory::AgentFailure);
}
