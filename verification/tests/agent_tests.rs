use ssh_session::agent::{
    get_agent_client, relay_step, AgentAuthStep, AgentAuthentication, AgentConnection,
    AgentConnectionKind, AgentEndpoint, Platform, RelayStep, SshAgentStream, AGENT_READ_CHUNK,
};
use ssh_session::error::{ErrorCategory, WrappedError};

/// Runs an agent authentication against identities that answer `answers`, and
/// gives the positions that were tried, in order, with the result.
fn run(answers: Vec<Result<bool, WrappedError>>) -> (Vec<usize>, Result<bool, WrappedError>) {
    let mut tried = Vec::new();
    let mut step = AgentAuthentication::begin(Ok(answers.len()));
    loop {
        match step {
            AgentAuthStep::Try(trying) => {
                let index = trying.index();
                tried.push(index);
                step = trying.advance(answers[index].clone());
            }
            AgentAuthStep::Finished(result) => return (tried, result),
        }
    }
}

#[test]
fn descriptor_keeps_kind_and_path() {
    let connection = AgentConnection::new(AgentConnectionKind::Pipe, Some("\\\\.\\pipe\\agent".to_string()));
    assert_eq!(connection.kind, AgentConnectionKind::Pipe);
    assert_eq!(connection.path, Some("\\\\.\\pipe\\agent".to_string()));
    let connection = AgentConnection::new(AgentConnectionKind::Pageant, None);
    assert_eq!(connection.kind, AgentConnectionKind::Pageant);
    assert_eq!(connection.path, None);
}

#[test]
fn platform_agent_exists_on_windows_only() {
    let pageant = AgentConnection::new(AgentConnectionKind::Pageant, None);
    assert_eq!(get_agent_client(&pageant, Platform::Windows), Ok(AgentEndpoint::Pageant));
    assert_eq!(get_agent_client(&pageant, Platform::Unix), Err(WrappedError::AgentUnavailable));
    assert_eq!(get_agent_client(&pageant, Platform::Other), Err(WrappedError::AgentUnavailable));
}

#[test]
fn named_pipe_exists_on_windows_only() {
    let pipe = AgentConnection::new(AgentConnectionKind::Pipe, Some("\\\\.\\pipe\\openssh".to_string()));
    assert_eq!(
        get_agent_client(&pipe, Platform::Windows),
        Ok(AgentEndpoint::NamedPipe("\\\\.\\pipe\\openssh".to_string()))
    );
    assert_eq!(get_agent_client(&pipe, Platform::Unix), Err(WrappedError::AgentUnavailable));
    assert_eq!(get_agent_client(&pipe, Platform::Other), Err(WrappedError::AgentUnavailable));
}

#[test]
fn unix_socket_exists_on_unix_only() {
    let socket = AgentConnection::new(AgentConnectionKind::Unix, Some("/tmp/ssh-agent".to_string()));
    assert_eq!(
        get_agent_client(&socket, Platform::Unix),
        Ok(AgentEndpoint::UnixSocket("/tmp/ssh-agent".to_string()))
    );
    assert_eq!(get_agent_client(&socket, Platform::Windows), Err(WrappedError::AgentUnavailable));
    assert_eq!(get_agent_client(&socket, Platform::Other), Err(WrappedError::AgentUnavailable));
}

#[test]
fn missing_path_is_the_empty_path() {
    let pipe = AgentConnection::new(AgentConnectionKind::Pipe, None);
    assert_eq!(get_agent_client(&pipe, Platform::Windows), Ok(AgentEndpoint::NamedPipe(String::new())));
    let socket = AgentConnection::new(AgentConnectionKind::Unix, None);
    assert_eq!(get_agent_client(&socket, Platform::Unix), Ok(AgentEndpoint::UnixSocket(String::new())));
}

#[test]
fn unavailable_agent_is_an_agent_failure() {
    let error = WrappedError::AgentUnavailable;
    assert_eq!(error.category(), ErrorCategory::AgentFailure);
    assert_eq!(error.message(), "AgentFailure");
}

#[test]
fn all_identities_refused_means_each_tried_once_and_false() {
    let (tried, result) = run(vec![Ok(false), Ok(false), Ok(false), Ok(false)]);
    assert_eq!(tried, vec![0, 1, 2, 3]);
    assert_eq!(result, Ok(false));
    let (tried, result) = run(vec![Ok(false)]);
    assert_eq!(tried, vec![0]);
    assert_eq!(result, Ok(false));
}

#[test]
fn first_success_stops_the_trying() {
    let (tried, result) = run(vec![Ok(false), Ok(true), Ok(true), Ok(false)]);
    assert_eq!(tried, vec![0, 1]);
    assert_eq!(result, Ok(true));
    let (tried, result) = run(vec![Ok(true), Ok(false)]);
    assert_eq!(tried, vec![0]);
    assert_eq!(result, Ok(true));
    let (tried, result) = run(vec![Ok(false), Ok(false), Ok(true)]);
    assert_eq!(tried, vec![0, 1, 2]);
    assert_eq!(result, Ok(true));
}

#[test]
fn failure_stops_the_trying_and_is_no_refusal() {
    let broken = WrappedError::AgentAuthError("agent went away".to_string());
    let (tried, result) = run(vec![Ok(false), Err(broken.clone()), Ok(true)]);
    assert_eq!(tried, vec![0, 1]);
    assert_eq!(result, Err(broken.clone()));
    let (tried, result) = run(vec![Ok(false), Ok(false), Err(broken.clone())]);
    assert_eq!(tried, vec![0, 1, 2]);
    assert_eq!(result, Err(broken));
}

#[test]
fn no_identity_means_refused_with_nothing_tried() {
    let (tried, result) = run(Vec::new());
    assert_eq!(tried, Vec::<usize>::new());
    assert_eq!(result, Ok(false));
}

#[test]
fn unreachable_agent_fails_before_any_identity() {
    let unreachable = WrappedError::RusshKeys("AgentFailure".to_string());
    match AgentAuthentication::begin(Err(unreachable.clone())) {
        AgentAuthStep::Finished(result) => assert_eq!(result, Err(unreachable)),
        AgentAuthStep::Try(_) => panic!("no identity is known"),
    }
}

#[test]
fn first_step_tries_the_first_identity() {
    match AgentAuthentication::begin(Ok(3)) {
        AgentAuthStep::Try(trying) => assert_eq!(trying.index(), 0),
        AgentAuthStep::Finished(_) => panic!("three identities are to be tried"),
    }
}

#[test]
fn relay_hands_on_what_was_read() {
    assert_eq!(AGENT_READ_CHUNK, 4096);
    assert_eq!(
        relay_step::<()>(Ok(vec![1, 2, 3])),
        RelayStep { deliver: Some(vec![1, 2, 3]), proceed: true }
    );
    assert_eq!(
        relay_step::<()>(Ok(vec![0; 4096])),
        RelayStep { deliver: Some(vec![0; 4096]), proceed: true }
    );
}

#[test]
fn relay_hands_on_the_empty_read_and_stops() {
    assert_eq!(relay_step::<()>(Ok(Vec::new())), RelayStep { deliver: Some(Vec::new()), proceed: false });
}

#[test]
fn relay_stops_silently_on_a_failed_read() {
    assert_eq!(relay_step(Err("reset")), RelayStep { deliver: None, proceed: false });
}

#[test]
fn open_stream_writes_to_its_half() {
    let mut stream = SshAgentStream::new(Vec::<u8>::new());
    match stream.write(vec![9, 8]) {
        Some((half, data)) => {
            assert_eq!(data, vec![9, 8]);
            half.extend_from_slice(&data);
        }
        None => panic!("the stream is open"),
    }
    match stream.write(vec![7]) {
        Some((half, data)) => half.extend_from_slice(&data),
        None => panic!("the stream is open"),
    }
    assert_eq!(stream.write(Vec::new()), Some((&mut vec![9, 8, 7], Vec::new())));
    assert_eq!(stream.close(), Some(vec![9, 8, 7]));
}

#[test]
fn closed_stream_writes_nothing_and_closes_once() {
    let mut stream = SshAgentStream::new("writer");
    assert_eq!(stream.close(), Some("writer"));
    assert_eq!(stream.write(vec![9, 8]), None);
    assert_eq!(stream.close(), None);
}
