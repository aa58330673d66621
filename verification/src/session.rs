//! The session handle: the one handle of a connection, the requests that its
//! operations send, and the state of keyboard-interactive authentication.

use vstd::prelude::*;
use crate::agent::{get_agent_client, AgentConnection, AgentEndpoint, Platform};
use crate::channel::ChannelRequest;
use crate::error::WrappedError;
use crate::sftp::SftpBootstrap;

verus! {

/// One question of a keyboard-interactive exchange.
#[derive(Clone, Debug, PartialEq, Eq)]
pub struct KeyboardInteractiveAuthenticationPrompt {
    pub prompt: String,
    /// Whether the answer may be shown while it is typed.
    pub echo: bool,
}

/// The engine's answer to an authentication step.
#[derive(Clone, Debug, PartialEq, Eq)]
pub enum AuthenticationState {
    Success,
    Failure,
    /// The server asks questions; they are to be answered in this order.
    InfoRequest {
        name: String,
        instructions: String,
        prompts: Vec<KeyboardInteractiveAuthenticationPrompt>,
    },
}

/// An authentication step's answer as the host sees it: the state by name,
/// and what an information request carries.
#[derive(Clone, Debug, PartialEq, Eq)]
pub struct KeyboardInteractiveAuthenticationState {
    pub state: String,
    pub name: Option<String>,
    pub instructions: Option<String>,
    pub prompts: Option<Vec<KeyboardInteractiveAuthenticationPrompt>>,
}

/// Why a session is closed, as the protocol numbers it.
#[derive(Clone, Copy, Debug, PartialEq, Eq, Structural)]
pub enum DisconnectCode {
    ByApplication,
}

/// A request to the protocol engine on the session.
#[derive(Clone, Debug, PartialEq, Eq)]
pub enum SessionRequest {
    AuthenticatePassword { username: String, password: String },
    /// Start keyboard-interactive authentication. No submethods are named.
    KeyboardInteractiveStart { username: String },
    /// Answer the questions of the last information request, in their order.
    KeyboardInteractiveRespond { responses: Vec<String> },
    ChannelOpenSession,
    /// Ask the server to listen on `address` and `port` and to forward what
    /// connects there.
    TcpipForward { address: String, port: u32 },
    CancelTcpipForward { address: String, port: u32 },
    /// Open a channel that the server connects to `address` and `port`.
    ChannelOpenDirectTcpip {
        address: String,
        port: u32,
        originator_address: String,
        originator_port: u32,
    },
    Disconnect { reason: DisconnectCode, description: String, language_tag: String },
}

/// An agent authentication that can start: the user, and the agent whose
/// identities are to be tried.
#[derive(Debug, PartialEq, Eq)]
pub struct AgentLogin {
    pub username: String,
    pub agent: AgentEndpoint,
}

/// A public key authentication: the user, and the key pair to use.
#[derive(Debug, PartialEq, Eq)]
pub struct PublicKeyAuthentication<K> {
    pub username: String,
    pub key: K,
}

impl AuthenticationState {
    /// The number of answers that this state asks for, if it asks.
    pub open spec fn questions(self) -> Option<usize> {
        match self {
            AuthenticationState::InfoRequest { prompts, .. } => Some(prompts.len()),
            _ => None,
        }
    }
}

impl KeyboardInteractiveAuthenticationState {
    /// Whether this is how the host sees `reply`.
    pub open spec fn shows(self, reply: AuthenticationState) -> bool {
        match reply {
            AuthenticationState::Success => {
                &&& self.state@ == "success"@
                &&& self.name is None
                &&& self.instructions is None
                &&& self.prompts is None
            },
            AuthenticationState::Failure => {
                &&& self.state@ == "failure"@
                &&& self.name is None
                &&& self.instructions is None
                &&& self.prompts is None
            },
            AuthenticationState::InfoRequest { name, instructions, prompts } => {
                &&& self.state@ == "infoRequest"@
                &&& self.name == Some(name)
                &&& self.instructions == Some(instructions)
                &&& self.prompts == Some(prompts)
            },
        }
    }

    /// The host's view of the engine's answer.
    pub fn from(reply: AuthenticationState) -> (state: Self)
        ensures
            state.shows(reply),
    {
        match reply {
            AuthenticationState::Success => KeyboardInteractiveAuthenticationState {
                state: "success".to_owned(),
                name: None,
                instructions: None,
                prompts: None,
            },
            AuthenticationState::Failure => KeyboardInteractiveAuthenticationState {
                state: "failure".to_owned(),
                name: None,
                instructions: None,
                prompts: None,
            },
            AuthenticationState::InfoRequest {
                name,
                instructions,
                prompts,
            } => KeyboardInteractiveAuthenticationState {
                state: "infoRequest".to_owned(),
                name: Some(name),
                instructions: Some(instructions),
                prompts: Some(prompts),
            },
        }
    }

    /// A copy of the questions, in their order.
    pub fn prompts(&self) -> (copy: Option<Vec<KeyboardInteractiveAuthenticationPrompt>>)
        ensures
            match self.prompts {
                Some(list) => copy is Some && copy->Some_0@ == list@,
                None => copy is None,
            },
    {
        match &self.prompts {
            None => None,
            Some(list) => {
                let mut copy: Vec<KeyboardInteractiveAuthenticationPrompt> = Vec::new();
                let mut i: usize = 0;
                while i < list.len()
                    invariant
                        i <= list.len(),
                        copy@ == list@.take(i as int),
                    decreases list.len() - i,
                {
                    let question = KeyboardInteractiveAuthenticationPrompt {
                        prompt: list[i].prompt.clone(),
                        echo: list[i].echo,
                    };
                    copy.push(question);
                    i += 1;
                    assert(copy@ == list@.take(i as int));
                }
                assert(list@.take(i as int) == list@);
                Some(copy)
            },
        }
    }
}

/// The handle of an open session. `H` is the caller's type of a session.
///
/// Each operation borrows the handle for its duration, so two operations on
/// one session never run together, and none leaves the handle unusable.
#[derive(Debug)]
pub struct SshClient<H> {
    handle: H,
    awaited_responses: Option<usize>,
}

impl<H> SshClient<H> {
    /// The session that this handle holds.
    pub closed spec fn handle_of(self) -> H {
        self.handle
    }

    /// The number of answers that the server waits for, where its last
    /// answer was an information request.
    pub closed spec fn awaited(self) -> Option<usize> {
        self.awaited_responses
    }

    /// What answering with `responses` amounts to: the request that carries
    /// exactly these answers, or a refusal where the server asked another
    /// number of questions. Without a question nothing is checked here.
    pub open spec fn answer(self, responses: Vec<String>) -> Result<SessionRequest, WrappedError> {
        match self.awaited() {
            Some(expected) if expected != responses.len() => Err(
                WrappedError::ResponseCountMismatch { expected, received: responses.len() },
            ),
            _ => Ok(SessionRequest::KeyboardInteractiveRespond { responses }),
        }
    }

    /// A handle on the session that a handshake has opened.
    pub fn new(handle: H) -> (client: Self)
        ensures
            client.handle_of() == handle,
            client.awaited() is None,
    {
        SshClient { handle, awaited_responses: None }
    }

    /// The session, to perform a request on.
    pub fn handle(&self) -> (handle: &H)
        ensures
            *handle == self.handle_of(),
    {
        &self.handle
    }

    /// The session, to perform a request that changes it.
    pub fn handle_mut(&mut self) -> (handle: &mut H)
        ensures
            *handle == old(self).handle_of(),
            final(self).handle_of() == *final(handle),
            final(self).awaited() == old(self).awaited(),
    {
        &mut self.handle
    }

    /// Authenticates with a password. The engine answers whether the server
    /// accepted; a refusal is an answer, not a failure.
    pub fn authenticate_password(&self, username: String, password: String) -> (request:
        SessionRequest)
        ensures
            request == (SessionRequest::AuthenticatePassword { username, password }),
    {
        SessionRequest::AuthenticatePassword { username, password }
    }

    /// Authenticates with a key pair. The engine answers whether the server
    /// accepted; a refusal is an answer, not a failure.
    pub fn authenticate_publickey<K>(&self, username: String, key: K) -> (request:
        PublicKeyAuthentication<K>)
        ensures
            request == (PublicKeyAuthentication { username, key }),
    {
        PublicKeyAuthentication { username, key }
    }

    /// Starts keyboard-interactive authentication. Questions of an earlier
    /// exchange are forgotten.
    pub fn start_keyboard_interactive_authentication(&mut self, username: String) -> (request:
        SessionRequest)
        ensures
            request == (SessionRequest::KeyboardInteractiveStart { username }),
            final(self).handle_of() == old(self).handle_of(),
            final(self).awaited() is None,
    {
        self.awaited_responses = None;
        SessionRequest::KeyboardInteractiveStart { username }
    }

    /// Records the engine's answer to a keyboard-interactive step, and shows
    /// it as the host sees it.
    pub fn keyboard_interactive_reply(&mut self, reply: AuthenticationState) -> (state:
        KeyboardInteractiveAuthenticationState)
        ensures
            state.shows(reply),
            final(self).handle_of() == old(self).handle_of(),
            final(self).awaited() == reply.questions(),
    {
        self.awaited_responses =
        match &reply {
            AuthenticationState::InfoRequest { prompts, .. } => Some(prompts.len()),
            _ => None,
        };
        KeyboardInteractiveAuthenticationState::from(reply)
    }

    /// Answers the server's questions. The answers are sent as they are, one
    /// for each question and in the questions' order; a list of another
    /// length is refused and nothing is sent.
    pub fn respond_to_keyboard_interactive_authentication(&self, responses: Vec<String>) -> (request:
        Result<SessionRequest, WrappedError>)
        ensures
            request == self.answer(responses),
    {
        match self.awaited_responses {
            Some(expected) => {
                if expected != responses.len() {
                    Err(
                        WrappedError::ResponseCountMismatch {
                            expected,
                            received: responses.len(),
                        },
                    )
                } else {
                    Ok(SessionRequest::KeyboardInteractiveRespond { responses })
                }
            },
            None => Ok(SessionRequest::KeyboardInteractiveRespond { responses }),
        }
    }

    /// Opens a session channel.
    pub fn channel_open_session(&self) -> (request: SessionRequest)
        ensures
            request == SessionRequest::ChannelOpenSession,
    {
        SessionRequest::ChannelOpenSession
    }

    /// Asks the server to forward connections to `address` and `port`. The
    /// engine answers with the port that was bound.
    pub fn tcpip_forward(&self, address: String, port: u32) -> (request: SessionRequest)
        ensures
            request == (SessionRequest::TcpipForward { address, port }),
    {
        SessionRequest::TcpipForward { address, port }
    }

    /// Ends a forwarding.
    pub fn cancel_tcpip_forward(&self, address: String, port: u32) -> (request: SessionRequest)
        ensures
            request == (SessionRequest::CancelTcpipForward { address, port }),
    {
        SessionRequest::CancelTcpipForward { address, port }
    }

    /// Opens a channel to `address` and `port` on behalf of the originator.
    pub fn channel_open_direct_tcpip(
        &self,
        address: String,
        port: u32,
        originator_address: String,
        originator_port: u32,
    ) -> (request: SessionRequest)
        ensures
            request == (SessionRequest::ChannelOpenDirectTcpip {
                address,
                port,
                originator_address,
                originator_port,
            }),
    {
        SessionRequest::ChannelOpenDirectTcpip {
            address,
            port,
            originator_address,
            originator_port,
        }
    }

    /// Prepares an authentication through an agent: resolves the descriptor
    /// on `platform`. Where no such agent exists there, the authentication
    /// fails here, before any identity is tried.
    pub fn authenticate_agent(
        &self,
        username: String,
        connection: &AgentConnection,
        platform: Platform,
    ) -> (login: Result<AgentLogin, WrappedError>)
        ensures
            match login {
                Ok(start) => start.username == username && connection.resolves_to(
                    platform,
                    Ok(start.agent),
                ),
                Err(error) => connection.resolves_to(platform, Err(error)),
            },
    {
        match get_agent_client(connection, platform) {
            Ok(agent) => Ok(AgentLogin { username, agent }),
            Err(error) => Err(error),
        }
    }

    /// Opens a file transfer session: a session channel, and on it the
    /// subsystem `sftp`, whose acknowledgement is asked for.
    pub fn channel_open_sftp(&self) -> (plan: SftpBootstrap)
        ensures
            plan.open == SessionRequest::ChannelOpenSession,
            plan.subsystem matches ChannelRequest::RequestSubsystem { want_reply, name }
                && want_reply && name@ == "sftp"@,
    {
        SftpBootstrap {
            open: SessionRequest::ChannelOpenSession,
            subsystem: ChannelRequest::RequestSubsystem {
                want_reply: true,
                name: "sftp".to_owned(),
            },
        }
    }

    /// Closes the session on the application's behalf, with no description.
    pub fn disconnect(&self) -> (request: SessionRequest)
        ensures
            request matches SessionRequest::Disconnect { reason, description, language_tag }
                && reason == DisconnectCode::ByApplication && description@.len() == 0
                && language_tag@.len() == 0,
    {
        SessionRequest::Disconnect {
            reason: DisconnectCode::ByApplication,
            description: String::new(),
            language_tag: String::new(),
        }
    }

    /// After an information request with a number of questions, a list of
    /// another number of answers is refused as a protocol failure; a list
    /// that is accepted is sent whole, with nothing cut and nothing added.
    pub proof fn answers_must_match_questions(
        after: Self,
        reply: AuthenticationState,
        responses: Vec<String>,
    )
        requires
            reply is InfoRequest,
            after.awaited() == reply.questions(),
        ensures
            responses.len() != reply->prompts.len() ==> after.answer(responses) is Err
                && after.answer(responses)->Err_0.category_of()
                == crate::error::ErrorCategory::Protocol,
            responses.len() == reply->prompts.len() ==> after.answer(responses) == Ok::<
                SessionRequest,
                WrappedError,
            >(SessionRequest::KeyboardInteractiveRespond { responses }),
    {
    }
}

} // verus!
