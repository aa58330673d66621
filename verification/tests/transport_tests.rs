use ssh_session::channel::SshChannel;
use ssh_session::error::{ErrorCategory, WrappedError};
use ssh_session::transport::{
    HttpProxyFailure, SshTransport, SshTransportInner, TransportCleanup, TransportKind,
};

type Transport = SshTransport<&'static str, u32>;

fn every_kind() -> Vec<(Transport, TransportKind)> {
    let mut channel = SshChannel::new(7, 70u32);
    vec![
        (Transport::new_socket(Ok("socket")).unwrap(), TransportKind::Socket),
        (Transport::new_command(Ok("cat")).unwrap(), TransportKind::Process),
        (Transport::new_ssh_channel(&mut channel).unwrap(), TransportKind::NestedChannel),
        (Transport::new_socks_proxy(Ok("socks")).unwrap(), TransportKind::Socks5Proxy),
        (Transport::new_http_proxy(Ok("http")).unwrap(), TransportKind::HttpProxy),
    ]
}

#[test]
fn first_take_yields_the_stream_of_each_kind() {
    for (mut transport, kind) in every_kind() {
        assert!(!transport.is_consumed());
        let taken = transport.take().expect("a fresh transport holds its stream");
        assert_eq!(taken.kind(), kind);
        assert!(transport.is_consumed());
    }
}

#[test]
fn second_take_yields_nothing_for_each_kind() {
    for (mut transport, _) in every_kind() {
        assert!(transport.take().is_some());
        assert!(transport.take().is_none());
        assert!(transport.take().is_none());
        assert!(transport.is_consumed());
    }
}

#[test]
fn take_hands_out_the_very_stream() {
    let mut transport = Transport::new_socket(Ok("10.0.0.1:22")).unwrap();
    assert_eq!(transport.take(), Some(SshTransportInner::Socket("10.0.0.1:22")));
    let mut transport = Transport::new_command(Ok("cat")).unwrap();
    assert_eq!(transport.take(), Some(SshTransportInner::Command("cat")));
    let mut transport = Transport::new_socks_proxy(Ok("proxy")).unwrap();
    assert_eq!(transport.take(), Some(SshTransportInner::SocksProxy("proxy")));
    let mut transport = Transport::new_http_proxy(Ok("proxy")).unwrap();
    assert_eq!(transport.take(), Some(SshTransportInner::HttpProxy("proxy")));
}

#[test]
fn cleanup_follows_the_kind() {
    assert_eq!(TransportKind::Socket.cleanup(), TransportCleanup::GracefulShutdown);
    assert_eq!(TransportKind::Process.cleanup(), TransportCleanup::ForcedKill);
    assert_eq!(TransportKind::NestedChannel.cleanup(), TransportCleanup::OrdinaryRelease);
    assert_eq!(TransportKind::Socks5Proxy.cleanup(), TransportCleanup::OrdinaryRelease);
    assert_eq!(TransportKind::HttpProxy.cleanup(), TransportCleanup::OrdinaryRelease);
    for (mut transport, kind) in every_kind() {
        let stream = transport.take().unwrap();
        assert_eq!(stream.cleanup(), kind.cleanup());
    }
}

#[test]
fn vectored_writes_only_on_sockets_and_proxies() {
    assert!(TransportKind::Socket.is_write_vectored());
    assert!(!TransportKind::Process.is_write_vectored());
    assert!(!TransportKind::NestedChannel.is_write_vectored());
    assert!(TransportKind::Socks5Proxy.is_write_vectored());
    assert!(TransportKind::HttpProxy.is_write_vectored());
    for (mut transport, kind) in every_kind() {
        let stream = transport.take().unwrap();
        assert_eq!(stream.is_write_vectored(), kind.is_write_vectored());
    }
}

#[test]
fn abandoned_process_is_killed_whatever_happened_to_another() {
    let mut used = Transport::new_command(Ok("cat")).unwrap();
    let consumed = used.take();
    assert!(consumed.is_some());
    assert!(used.take().is_none());

    let mut unrelated = Transport::new_command(Ok("cat")).unwrap();
    assert!(!unrelated.is_consumed());
    // What a drop of the unused transport has to do with what it still holds.
    let left = unrelated.take().expect("the unrelated transport was never used");
    assert_eq!(left.kind(), TransportKind::Process);
    assert_eq!(left.cleanup(), TransportCleanup::ForcedKill);
}

#[test]
fn tunnel_consumes_the_channel() {
    let mut channel = SshChannel::new(3, 30u32);
    let mut transport = Transport::new_ssh_channel(&mut channel).unwrap();
    assert!(channel.is_consumed());
    assert_eq!(channel.id(), Err(WrappedError::ChannelAlreadyConsumed));
    assert_eq!(transport.take(), Some(SshTransportInner::SshChannel(30)));
}

#[test]
fn tunnel_through_a_consumed_channel_fails() {
    let mut channel = SshChannel::new(3, 30u32);
    assert_eq!(channel.take(), Some(30));
    let made = Transport::new_ssh_channel(&mut channel);
    match made {
        Err(error) => {
            assert_eq!(error, WrappedError::ChannelAlreadyConsumed);
            assert_eq!(error.category(), ErrorCategory::PreconditionViolation);
            assert_eq!(error.message(), "Channel is already consumed");
        }
        Ok(_) => panic!("a consumed channel cannot carry a transport"),
    }
    assert!(channel.is_consumed());
}

#[test]
fn failed_connection_is_a_stream_failure() {
    let made = Transport::new_socket(Err("connection refused".to_string()));
    assert_eq!(made, Err(WrappedError::Io("connection refused".to_string())));
    assert_eq!(made.unwrap_err().category(), ErrorCategory::Io);
}

#[test]
fn failed_spawn_is_a_stream_failure() {
    let made = Transport::new_command(Err("No such file or directory".to_string()));
    assert_eq!(made, Err(WrappedError::Io("No such file or directory".to_string())));
    assert_eq!(made.unwrap_err().category(), ErrorCategory::Io);
}

#[test]
fn failed_socks_handshake_is_a_proxy_failure() {
    let made = Transport::new_socks_proxy(Err("GeneralSocksServerFailure".to_string()));
    assert_eq!(made, Err(WrappedError::Socks("GeneralSocksServerFailure".to_string())));
    assert_eq!(made.unwrap_err().category(), ErrorCategory::ProxyHandshakeFailure);
}

#[test]
fn http_proxy_tells_an_unreachable_proxy_from_a_refusal() {
    let unreachable =
        Transport::new_http_proxy(Err(HttpProxyFailure::Connection("timed out".to_string())));
    assert_eq!(unreachable, Err(WrappedError::Io("timed out".to_string())));
    assert_eq!(unreachable.unwrap_err().category(), ErrorCategory::Io);
    let refused =
        Transport::new_http_proxy(Err(HttpProxyFailure::Handshake("HttpCode403".to_string())));
    assert_eq!(refused, Err(WrappedError::Http("HttpCode403".to_string())));
    assert_eq!(refused.unwrap_err().category(), ErrorCategory::ProxyHandshakeFailure);
}
