use ssh_session::channel::{send_outcome, ChannelRequest, SshChannel};
use ssh_session::error::{ErrorCategory, WrappedError};

#[test]
fn id_is_stable() {
    let channel = SshChannel::new(5, "direct-tcpip");
    let first = channel.id();
    let second = channel.id();
    assert_eq!(first, Ok(5));
    assert_eq!(second, first);
}

#[test]
fn direct_tcpip_channel_keeps_a_nonzero_id() {
    // A channel opened to ("example.com", 80) from ("127.0.0.1", 54321),
    // which the engine numbered 2.
    let channel = SshChannel::new(2, ("example.com", 80u32, "127.0.0.1", 54321u32));
    let id = channel.id().unwrap();
    assert_ne!(id, 0);
    assert_eq!(channel.id(), Ok(id));
}

#[test]
fn request_pty_asks_without_reply_and_keeps_the_size() {
    let channel = SshChannel::new(1, 'h');
    let (handle, request) = channel.request_pty("xterm-256color".to_string(), 80, 24, 640, 480).unwrap();
    assert_eq!(*handle, 'h');
    assert_eq!(
        request,
        ChannelRequest::RequestPty {
            want_reply: false,
            term: "xterm-256color".to_string(),
            col_width: 80,
            row_height: 24,
            pix_width: 640,
            pix_height: 480,
        }
    );
}

#[test]
fn request_shell_asks_for_acknowledgement() {
    let channel = SshChannel::new(1, 'h');
    let (_, request) = channel.request_shell().unwrap();
    assert_eq!(request, ChannelRequest::RequestShell { want_reply: true });
}

#[test]
fn request_exec_carries_the_command() {
    let channel = SshChannel::new(1, 'h');
    let (_, request) = channel.request_exec("uname -a".to_string()).unwrap();
    assert_eq!(request, ChannelRequest::Exec { want_reply: true, command: "uname -a".to_string() });
}

#[test]
fn request_x11_forwarding_carries_its_arguments() {
    let channel = SshChannel::new(1, 'h');
    let (_, request) = channel
        .request_x11_forwarding(true, "MIT-MAGIC-COOKIE-1".to_string(), "abcd".to_string(), 3)
        .unwrap();
    assert_eq!(
        request,
        ChannelRequest::RequestX11 {
            want_reply: false,
            single_connection: true,
            x11_protocol: "MIT-MAGIC-COOKIE-1".to_string(),
            x11_cookie: "abcd".to_string(),
            screen: 3,
        }
    );
}

#[test]
fn request_agent_forwarding_asks_without_reply() {
    let channel = SshChannel::new(1, 'h');
    let (_, request) = channel.request_agent_forwarding().unwrap();
    assert_eq!(request, ChannelRequest::AgentForward { want_reply: false });
}

#[test]
fn window_change_carries_the_size() {
    let channel = SshChannel::new(1, 'h');
    let (_, request) = channel.window_change(120, 40, 0, 0).unwrap();
    assert_eq!(
        request,
        ChannelRequest::WindowChange { col_width: 120, row_height: 40, pix_width: 0, pix_height: 0 }
    );
}

#[test]
fn data_eof_and_close() {
    let channel = SshChannel::new(1, 'h');
    let (_, request) = channel.data(vec![1, 2, 3]).unwrap();
    assert_eq!(request, ChannelRequest::Data { data: vec![1, 2, 3] });
    let (_, request) = channel.eof().unwrap();
    assert_eq!(request, ChannelRequest::Eof);
    let (_, request) = channel.close().unwrap();
    assert_eq!(request, ChannelRequest::Close);
}

#[test]
fn take_yields_the_channel_once() {
    let mut channel = SshChannel::new(9, "inner");
    assert!(!channel.is_consumed());
    assert_eq!(channel.take(), Some("inner"));
    assert!(channel.is_consumed());
    assert_eq!(channel.take(), None);
}

#[test]
fn every_operation_fails_after_take() {
    let mut channel = SshChannel::new(9, "inner");
    assert!(channel.take().is_some());
    let refused = WrappedError::ChannelAlreadyConsumed;
    assert_eq!(channel.id(), Err(refused.clone()));
    assert_eq!(channel.request_pty("xterm".to_string(), 1, 2, 3, 4).err(), Some(refused.clone()));
    assert_eq!(channel.request_shell().err(), Some(refused.clone()));
    assert_eq!(channel.request_exec("ls".to_string()).err(), Some(refused.clone()));
    assert_eq!(
        channel.request_x11_forwarding(false, "p".to_string(), "c".to_string(), 0).err(),
        Some(refused.clone())
    );
    assert_eq!(channel.request_agent_forwarding().err(), Some(refused.clone()));
    assert_eq!(channel.window_change(1, 2, 3, 4).err(), Some(refused.clone()));
    assert_eq!(channel.data(vec![0]).err(), Some(refused.clone()));
    assert_eq!(channel.eof().err(), Some(refused.clone()));
    assert_eq!(channel.close().err(), Some(refused.clone()));
    assert_eq!(refused.category(), ErrorCategory::PreconditionViolation);
}

#[test]
fn failed_write_is_the_one_failure_to_send() {
    assert_eq!(send_outcome::<&str>(Ok(())), Ok(()));
    let failed = send_outcome(Err("channel closed by peer"));
    assert_eq!(failed, Err(WrappedError::SendFailed));
    assert_eq!(failed.unwrap_err().message(), "Failed to send data to channel");
    assert_eq!(send_outcome(Err(17u8)), Err(WrappedError::SendFailed));
}
