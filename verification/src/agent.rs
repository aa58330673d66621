//! Authentication agents: how a descriptor resolves to an agent, how the
//! identities of an agent are tried, and the relay of an agent's raw bytes.

use vstd::prelude::*;
use crate::error::WrappedError;

verus! {

/// The ways to reach an agent.
#[derive(Clone, Copy, Debug, PartialEq, Eq, Structural)]
pub enum AgentConnectionKind {
    Pageant,
    Pipe,
    Unix,
}

/// A recipe for reaching an agent. It is no connection: it is resolved when
/// an agent is needed.
#[derive(Clone, Debug, PartialEq, Eq)]
pub struct AgentConnection {
    pub kind: AgentConnectionKind,
    pub path: Option<String>,
}

/// The families of operating systems that differ in their agents.
#[derive(Clone, Copy, Debug, PartialEq, Eq, Structural)]
pub enum Platform {
    Windows,
    Unix,
    Other,
}

/// An agent to connect to.
#[derive(Clone, Debug, PartialEq, Eq)]
pub enum AgentEndpoint {
    /// The agent of the platform.
    Pageant,
    /// The agent behind the named pipe at this path.
    NamedPipe(String),
    /// The agent behind the Unix socket at this path.
    UnixSocket(String),
}

impl AgentConnection {
    /// The path of the descriptor; the empty path where it names none.
    pub open spec fn path_of(self) -> Seq<char> {
        match self.path {
            Some(path) => path@,
            None => Seq::empty(),
        }
    }

    /// Whether `found` is what this descriptor resolves to on `platform`.
    /// The platform agent and named pipes exist on Windows only, Unix
    /// sockets on Unix only.
    pub open spec fn resolves_to(
        self,
        platform: Platform,
        found: Result<AgentEndpoint, WrappedError>,
    ) -> bool {
        match (self.kind, platform) {
            (AgentConnectionKind::Pageant, Platform::Windows) => found == Ok::<
                AgentEndpoint,
                WrappedError,
            >(AgentEndpoint::Pageant),
            (AgentConnectionKind::Pipe, Platform::Windows) => found matches Ok(
                AgentEndpoint::NamedPipe(path),
            ) && path@ == self.path_of(),
            (AgentConnectionKind::Unix, Platform::Unix) => found matches Ok(
                AgentEndpoint::UnixSocket(path),
            ) && path@ == self.path_of(),
            _ => found == Err::<AgentEndpoint, WrappedError>(WrappedError::AgentUnavailable),
        }
    }

    /// A descriptor of the given kind and path.
    pub fn new(kind: AgentConnectionKind, path: Option<String>) -> (connection: Self)
        ensures
            connection.kind == kind,
            connection.path == path,
    {
        AgentConnection { kind, path }
    }

    fn path_or_default(&self) -> (path: String)
        ensures
            path@ == self.path_of(),
    {
        match &self.path {
            Some(path) => path.clone(),
            None => String::new(),
        }
    }
}

/// Resolves a descriptor to the agent to connect to on `platform`.
pub fn get_agent_client(connection: &AgentConnection, platform: Platform) -> (found: Result<
    AgentEndpoint,
    WrappedError,
>)
    ensures
        connection.resolves_to(platform, found),
{
    match connection.kind {
        AgentConnectionKind::Pageant => match platform {
            Platform::Windows => Ok(AgentEndpoint::Pageant),
            _ => Err(WrappedError::AgentUnavailable),
        },
        AgentConnectionKind::Pipe => match platform {
            Platform::Windows => Ok(AgentEndpoint::NamedPipe(connection.path_or_default())),
            _ => Err(WrappedError::AgentUnavailable),
        },
        AgentConnectionKind::Unix => match platform {
            Platform::Unix => Ok(AgentEndpoint::UnixSocket(connection.path_or_default())),
            _ => Err(WrappedError::AgentUnavailable),
        },
    }
}

/// An agent authentication in progress: one identity is being tried.
#[derive(Debug)]
pub struct AgentAuthentication {
    total: usize,
    index: usize,
}

/// What an agent authentication does next.
#[derive(Debug)]
pub enum AgentAuthStep {
    /// Try the identity at the authentication's position, and report the
    /// session's answer.
    Try(AgentAuthentication),
    /// The authentication is over, with this result.
    Finished(Result<bool, WrappedError>),
}

/// Whether another identity is tried after identity `index` of `total` got
/// the answer `outcome`: only after a refusal, and only while one is left.
pub open spec fn continues(total: nat, index: nat, outcome: Result<bool, WrappedError>) -> bool {
    outcome == Ok::<bool, WrappedError>(false) && index + 1 < total
}

/// The identities that are tried from `index` on, in the order of trying, and
/// the result, where identity `i` would get the answer `answers[i]`.
pub open spec fn trial(answers: Seq<Result<bool, WrappedError>>, index: nat) -> (
    Seq<nat>,
    Result<bool, WrappedError>,
)
    decreases answers.len() - index,
{
    if index >= answers.len() {
        (Seq::empty(), Ok(false))
    } else if continues(answers.len(), index, answers[index as int]) {
        let rest = trial(answers, index + 1);
        (seq![index] + rest.0, rest.1)
    } else {
        (seq![index], answers[index as int])
    }
}

impl AgentAuthStep {
    /// Whether this step tries identity `index` of `total`.
    pub open spec fn tries(self, total: nat, index: nat) -> bool {
        self matches AgentAuthStep::Try(trying) && trying.identities() == total
            && trying.position() == index
    }
}

impl AgentAuthentication {
    #[verifier::type_invariant]
    spec fn in_range(self) -> bool {
        self.index < self.total
    }

    /// The number of identities that the agent listed.
    pub closed spec fn identities(self) -> nat {
        self.total as nat
    }

    /// The position, in the agent's list, of the identity that is tried.
    pub closed spec fn position(self) -> nat {
        self.index as nat
    }

    /// Starts with what the agent answered when asked for its identities.
    /// Where the agent could not be reached or asked, the authentication
    /// fails and no identity is tried; with no identity it is refused.
    pub fn begin(identities: Result<usize, WrappedError>) -> (step: AgentAuthStep)
        ensures
            match identities {
                Ok(count) => if count == 0 {
                    step == AgentAuthStep::Finished(Ok(false))
                } else {
                    step.tries(count as nat, 0)
                },
                Err(error) => step == AgentAuthStep::Finished(Err(error)),
            },
    {
        match identities {
            Ok(count) => {
                if count == 0 {
                    AgentAuthStep::Finished(Ok(false))
                } else {
                    AgentAuthStep::Try(AgentAuthentication { total: count, index: 0 })
                }
            },
            Err(error) => AgentAuthStep::Finished(Err(error)),
        }
    }

    /// The position of the identity to try.
    pub fn index(&self) -> (index: usize)
        ensures
            index == self.position(),
            index < self.identities(),
    {
        proof {
            use_type_invariant(self);
        }
        self.index
    }

    /// Takes the session's answer for the identity that was tried. After a
    /// refusal the next identity is tried, if there is one; anything else
    /// ends the authentication with that answer.
    pub fn advance(self, outcome: Result<bool, WrappedError>) -> (step: AgentAuthStep)
        ensures
            self.position() < self.identities(),
            if continues(self.identities(), self.position(), outcome) {
                step.tries(self.identities(), self.position() + 1)
            } else {
                step == AgentAuthStep::Finished(outcome)
            },
    {
        proof {
            use_type_invariant(&self);
        }
        let refused = match &outcome {
            Ok(accepted) => !*accepted,
            Err(_) => false,
        };
        if refused && self.total - self.index > 1 {
            AgentAuthStep::Try(AgentAuthentication { total: self.total, index: self.index + 1 })
        } else {
            AgentAuthStep::Finished(outcome)
        }
    }
}

proof fn trial_from(answers: Seq<Result<bool, WrappedError>>, index: nat)
    requires
        index < answers.len(),
    ensures
        ({
            let (tried, result) = trial(answers, index);
            &&& 0 < tried.len() <= answers.len() - index
            &&& forall|i: int| 0 <= i < tried.len() ==> tried[i] == index + i
            &&& forall|j: int|
                index <= j < index + tried.len() - 1 ==> answers[j] == Ok::<bool, WrappedError>(
                    false,
                )
            &&& result == answers[index + tried.len() - 1]
            &&& index + tried.len() < answers.len() ==> result != Ok::<bool, WrappedError>(false)
        }),
    decreases answers.len() - index,
{
    if continues(answers.len(), index, answers[index as int]) {
        trial_from(answers, index + 1);
        let rest = trial(answers, index + 1);
        let tried = seq![index] + rest.0;
        assert(trial(answers, index) == (tried, rest.1));
        assert forall|i: int| 0 <= i < tried.len() implies tried[i] == index + i by {
            if i > 0 {
                assert(tried[i] == rest.0[i - 1]);
            }
        }
    } else {
        assert(trial(answers, index) == (seq![index], answers[index as int]));
    }
}

/// Agent authentication tries the identities in the agent's order, one at a
/// time, and goes on only after a refusal: it stops at the first identity
/// that the session accepts, or at the first failure. Where every identity is
/// refused, each has been tried once and the result is a refusal.
pub proof fn identities_tried_in_order(answers: Seq<Result<bool, WrappedError>>)
    ensures
        ({
            let (tried, result) = trial(answers, 0);
            &&& tried.len() <= answers.len()
            &&& forall|i: int| 0 <= i < tried.len() ==> tried[i] == i
            &&& forall|i: int|
                0 <= i < tried.len() - 1 ==> answers[i] == Ok::<bool, WrappedError>(false)
            &&& answers.len() > 0 ==> tried.len() > 0 && result == answers[tried.len() - 1]
            &&& answers.len() == 0 ==> tried.len() == 0 && result == Ok::<bool, WrappedError>(
                false,
            )
            &&& tried.len() < answers.len() ==> result != Ok::<bool, WrappedError>(false)
            &&& (forall|i: int|
                0 <= i < answers.len() ==> answers[i] == Ok::<bool, WrappedError>(false))
                ==> tried.len() == answers.len() && result == Ok::<bool, WrappedError>(false)
        }),
{
    if answers.len() > 0 {
        trial_from(answers, 0);
        let (tried, result) = trial(answers, 0);
    }
}

/// The size of one read from an agent.
pub const AGENT_READ_CHUNK: usize = 4096;

/// What the relay does with one read from an agent.
#[derive(Debug, PartialEq, Eq)]
pub struct RelayStep {
    /// The bytes to hand to the host, if any are to be handed.
    pub deliver: Option<Vec<u8>>,
    /// Whether to read again. Where not, the stream is closed.
    pub proceed: bool,
}

/// Decides what follows a read from an agent. What was read goes to the
/// host, the empty read at the end of the stream included, which is the last;
/// a failed read ends the relay with nothing handed on.
pub fn relay_step<E>(read: Result<Vec<u8>, E>) -> (step: RelayStep)
    ensures
        match read {
            Ok(bytes) => step.deliver == Some(bytes) && step.proceed == (bytes.len() > 0),
            Err(_) => step.deliver is None && !step.proceed,
        },
{
    match read {
        Ok(bytes) => {
            let proceed = bytes.len() > 0;
            RelayStep { deliver: Some(bytes), proceed }
        },
        Err(_) => RelayStep { deliver: None, proceed: false },
    }
}

/// The host's end of a raw connection to an agent. `W` is the caller's type
/// of the half that is written to.
#[derive(Debug)]
pub struct SshAgentStream<W> {
    writer: Option<W>,
}

impl<W> SshAgentStream<W> {
    /// The half to write to, while the stream is open.
    pub closed spec fn writer_of(self) -> Option<W> {
        self.writer
    }

    /// A stream that writes to `writer`.
    pub fn new(writer: W) -> (stream: Self)
        ensures
            stream.writer_of() == Some(writer),
    {
        SshAgentStream { writer: Some(writer) }
    }

    /// Writes `data` to the agent: yields the half to write all of it to.
    /// On a closed stream nothing is written, and that is no failure.
    pub fn write(&mut self, data: Vec<u8>) -> (target: Option<(&mut W, Vec<u8>)>)
        ensures
            match old(self).writer_of() {
                Some(writer) => {
                    &&& target matches Some((half, bytes))
                    &&& *half == writer
                    &&& bytes == data
                    &&& final(self).writer_of() == Some(*final(half))
                },
                None => target is None && final(self).writer_of() is None,
            },
    {
        match &mut self.writer {
            Some(writer) => Some((writer, data)),
            None => None,
        }
    }

    /// Closes the stream: yields the half to release, once.
    pub fn close(&mut self) -> (released: Option<W>)
        ensures
            released == old(self).writer_of(),
            final(self).writer_of() is None,
    {
        self.writer.take()
    }
}

} // verus!
