use ssh_session::connection::{connect, connected, HandshakeOutcome};
use ssh_session::error::{ErrorCategory, WrappedError};
use ssh_session::transport::{SshTransport, SshTransportInner};

type Transport = SshTransport<&'static str, u32>;

fn names(list: &[&str]) -> Vec<String> {
    list.iter().map(|name| name.to_string()).collect()
}

#[test]
fn connect_takes_the_stream_and_keeps_engine_defaults() {
    let mut transport = Transport::new_socket(Ok("example.com:22")).unwrap();
    let connection = connect(&mut transport, None, None, None, None, None, None, None, 3).unwrap();
    assert_eq!(connection.stream, SshTransportInner::Socket("example.com:22"));
    assert_eq!(connection.config.preferred.cipher, None);
    assert_eq!(connection.config.preferred.kex, None);
    assert_eq!(connection.config.preferred.key, None);
    assert_eq!(connection.config.preferred.mac, None);
    assert_eq!(connection.config.preferred.compression, None);
    assert_eq!(connection.config.keepalive_interval_seconds, None);
    assert_eq!(connection.config.keepalive_max, 3);
    assert_eq!(connection.timeout_seconds, None);
    assert!(transport.is_consumed());
}

#[test]
fn connect_cuts_each_list_down_to_known_names() {
    let mut transport = Transport::new_command(Ok("ssh-proxy")).unwrap();
    let connection = connect(
        &mut transport,
        Some(names(&["aes256-gcm@openssh.com", "rot13", "aes128-ctr"])),
        Some(names(&["made-up-kex", "curve25519-sha256"])),
        Some(names(&["rsa-sha2-256", "ssh-dss-imaginary"])),
        Some(names(&["hmac-sha2-256", "hmac-md4"])),
        Some(names(&["zip", "none"])),
        Some(1),
        Some(30),
        5,
    )
    .unwrap();
    assert_eq!(connection.stream, SshTransportInner::Command("ssh-proxy"));
    assert_eq!(
        connection.config.preferred.cipher,
        Some(names(&["aes256-gcm@openssh.com", "aes128-ctr"]))
    );
    assert_eq!(connection.config.preferred.kex, Some(names(&["curve25519-sha256"])));
    assert_eq!(connection.config.preferred.key, Some(names(&["rsa-sha2-256"])));
    assert_eq!(connection.config.preferred.mac, Some(names(&["hmac-sha2-256"])));
    assert_eq!(connection.config.preferred.compression, Some(names(&["none"])));
    assert_eq!(connection.config.keepalive_interval_seconds, Some(30));
    assert_eq!(connection.config.keepalive_max, 5);
    assert_eq!(connection.timeout_seconds, Some(1));
}

#[test]
fn connect_with_only_unknown_names_offers_an_empty_list() {
    let mut transport = Transport::new_socks_proxy(Ok("proxy")).unwrap();
    let connection =
        connect(&mut transport, Some(names(&["x", "y"])), Some(Vec::new()), None, None, None, None, None, 0)
            .unwrap();
    assert_eq!(connection.config.preferred.cipher, Some(Vec::new()));
    assert_eq!(connection.config.preferred.kex, Some(Vec::new()));
    assert_eq!(connection.config.keepalive_max, 0);
}

#[test]
fn connect_widens_the_largest_values() {
    let mut transport = Transport::new_http_proxy(Ok("proxy")).unwrap();
    let connection =
        connect(&mut transport, None, None, None, None, None, Some(u32::MAX), Some(u32::MAX), u32::MAX)
            .unwrap();
    assert_eq!(connection.timeout_seconds, Some(4294967295));
    assert_eq!(connection.config.keepalive_interval_seconds, Some(4294967295));
    assert_eq!(connection.config.keepalive_max, 4294967295usize);
}

#[test]
fn connect_refuses_a_used_transport() {
    let mut transport = Transport::new_socket(Ok("example.com:22")).unwrap();
    assert!(connect(&mut transport, None, None, None, None, None, None, None, 3).is_ok());
    let again = connect(&mut transport, None, None, None, None, None, None, None, 3);
    assert_eq!(again, Err(WrappedError::TransportAlreadyUsed));
    let error = again.unwrap_err();
    assert_eq!(error.category(), ErrorCategory::PreconditionViolation);
    assert_eq!(error.message(), "Transport already used");
    assert!(transport.is_consumed());
}

#[test]
fn connect_refuses_a_transport_that_was_taken_by_hand() {
    let mut transport = Transport::new_socket(Ok("example.com:22")).unwrap();
    assert!(transport.take().is_some());
    let refused = connect(&mut transport, Some(names(&["aes256-ctr"])), None, None, None, None, Some(1), None, 3);
    assert_eq!(refused, Err(WrappedError::TransportAlreadyUsed));
}

#[test]
fn established_handshake_gives_a_session() {
    let client = connected(HandshakeOutcome::Established("session")).unwrap();
    assert_eq!(*client.handle(), "session");
}

#[test]
fn failed_handshake_reports_the_failure_as_it_was() {
    let failure = WrappedError::Russh("KexInit".to_string());
    let client = connected::<u8>(HandshakeOutcome::Failed(failure.clone()));
    assert_eq!(client.err(), Some(failure));
    let io = WrappedError::Io("broken pipe".to_string());
    assert_eq!(connected::<u8>(HandshakeOutcome::Failed(io.clone())).err(), Some(io));
}

#[test]
fn handshake_past_its_deadline_is_a_timeout() {
    // A connection prepared with a deadline of one second, whose handshake
    // never completes.
    let mut transport = Transport::new_socket(Ok("192.0.2.1:22")).unwrap();
    let connection = connect(&mut transport, None, None, None, None, None, Some(1), None, 3).unwrap();
    assert_eq!(connection.timeout_seconds, Some(1));
    let error = connected::<u8>(HandshakeOutcome::TimedOut).err().unwrap();
    assert_eq!(error, WrappedError::ConnectionTimeout);
    assert_eq!(error.category(), ErrorCategory::Timeout);
    assert_eq!(error.message(), "Connection timeout");
}
