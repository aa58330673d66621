//! The channel handle: one multiplexed sub-connection of a session, held so
//! that it can be taken out once, and the requests that its operations send.

use vstd::prelude::*;
use crate::error::WrappedError;

verus! {

/// A request to the protocol engine on one channel.
#[derive(Clone, Debug, PartialEq, Eq)]
pub enum ChannelRequest {
    /// Ask for a pseudo-terminal, with no terminal modes.
    RequestPty {
        want_reply: bool,
        term: String,
        col_width: u32,
        row_height: u32,
        pix_width: u32,
        pix_height: u32,
    },
    /// Ask for a shell.
    RequestShell { want_reply: bool },
    /// Run a command.
    Exec { want_reply: bool, command: String },
    /// Ask for X11 forwarding.
    RequestX11 {
        want_reply: bool,
        single_connection: bool,
        x11_protocol: String,
        x11_cookie: String,
        screen: u32,
    },
    /// Ask for agent forwarding.
    AgentForward { want_reply: bool },
    /// Ask for a subsystem by its name.
    RequestSubsystem { want_reply: bool, name: String },
    /// Report a new window size.
    WindowChange { col_width: u32, row_height: u32, pix_width: u32, pix_height: u32 },
    /// Send bytes.
    Data { data: Vec<u8> },
    /// Signal the end of the data.
    Eof,
    /// Close the channel.
    Close,
}

/// A handle on a channel. `H` is the caller's type of an open channel.
#[derive(Debug, PartialEq, Eq)]
pub struct SshChannel<H> {
    id: u32,
    handle: Option<H>,
}

impl<H> SshChannel<H> {
    /// The channel that the handle still holds, if any.
    pub closed spec fn held(self) -> Option<H> {
        self.handle
    }

    /// The number that the engine gave the channel.
    pub closed spec fn number(self) -> u32 {
        self.id
    }

    /// What one `take` does: it hands out what was held and leaves nothing;
    /// the number stays.
    pub open spec fn take_step(before: Self, after: Self, taken: Option<H>) -> bool {
        &&& taken == before.held()
        &&& after.held() is None
        &&& after.number() == before.number()
    }

    /// What an operation that sends `request` returns: the channel to send
    /// it on, with the request, or a refusal where the channel is gone.
    pub open spec fn admitted(self, request: ChannelRequest) -> Result<
        (H, ChannelRequest),
        WrappedError,
    > {
        match self.held() {
            Some(handle) => Ok((handle, request)),
            None => Err(WrappedError::ChannelAlreadyConsumed),
        }
    }

    /// Whether `sent`, which lends the channel, is the result `due`.
    pub open spec fn sent_as(
        sent: Result<(&H, ChannelRequest), WrappedError>,
        due: Result<(H, ChannelRequest), WrappedError>,
    ) -> bool {
        match sent {
            Ok((handle, request)) => due == Ok::<(H, ChannelRequest), WrappedError>(
                (*handle, request),
            ),
            Err(error) => due == Err::<(H, ChannelRequest), WrappedError>(error),
        }
    }

    /// What `id` returns.
    pub open spec fn id_of(self) -> Result<u32, WrappedError> {
        match self.held() {
            Some(_) => Ok(self.number()),
            None => Err(WrappedError::ChannelAlreadyConsumed),
        }
    }

    /// A handle on the open channel `handle`, which the engine numbered `id`.
    pub fn new(id: u32, handle: H) -> (channel: Self)
        ensures
            channel.held() == Some(handle),
            channel.number() == id,
    {
        SshChannel { id, handle: Some(handle) }
    }

    /// Whether the channel has been taken out.
    pub fn is_consumed(&self) -> (consumed: bool)
        ensures
            consumed == (self.held() is None),
    {
        self.handle.is_none()
    }

    /// Takes the channel out of the handle, for good. The first call yields
    /// it; every later call yields nothing.
    pub fn take(&mut self) -> (taken: Option<H>)
        ensures
            Self::take_step(*old(self), *final(self), taken),
    {
        self.handle.take()
    }

    fn submit(&self, request: ChannelRequest) -> (sent: Result<(&H, ChannelRequest), WrappedError>)
        ensures
            Self::sent_as(sent, self.admitted(request)),
    {
        match &self.handle {
            Some(handle) => Ok((handle, request)),
            None => Err(WrappedError::ChannelAlreadyConsumed),
        }
    }

    /// The channel's number.
    pub fn id(&self) -> (id: Result<u32, WrappedError>)
        ensures
            id == self.id_of(),
    {
        match &self.handle {
            Some(_) => Ok(self.id),
            None => Err(WrappedError::ChannelAlreadyConsumed),
        }
    }

    /// Asks for a pseudo-terminal of the given type and size, without
    /// terminal modes and without waiting for the server's answer.
    pub fn request_pty(
        &self,
        term: String,
        col_width: u32,
        row_height: u32,
        pix_width: u32,
        pix_height: u32,
    ) -> (sent: Result<(&H, ChannelRequest), WrappedError>)
        ensures
            Self::sent_as(
                sent,
                self.admitted(
                    (ChannelRequest::RequestPty {
                        want_reply: false,
                        term,
                        col_width,
                        row_height,
                        pix_width,
                        pix_height,
                    }),
                ),
            ),
    {
        self.submit(
            ChannelRequest::RequestPty {
                want_reply: false,
                term,
                col_width,
                row_height,
                pix_width,
                pix_height,
            },
        )
    }

    /// Asks for a shell, and for the server's answer.
    pub fn request_shell(&self) -> (sent: Result<(&H, ChannelRequest), WrappedError>)
        ensures
            Self::sent_as(
                sent,
                self.admitted((ChannelRequest::RequestShell { want_reply: true })),
            ),
    {
        self.submit(ChannelRequest::RequestShell { want_reply: true })
    }

    /// Runs `command`, and asks for the server's answer.
    pub fn request_exec(&self, command: String) -> (sent: Result<
        (&H, ChannelRequest),
        WrappedError,
    >)
        ensures
            Self::sent_as(
                sent,
                self.admitted((ChannelRequest::Exec { want_reply: true, command })),
            ),
    {
        self.submit(ChannelRequest::Exec { want_reply: true, command })
    }

    /// Asks for X11 forwarding, without waiting for the server's answer.
    pub fn request_x11_forwarding(
        &self,
        single_connection: bool,
        x11_protocol: String,
        x11_cookie: String,
        screen: u32,
    ) -> (sent: Result<(&H, ChannelRequest), WrappedError>)
        ensures
            Self::sent_as(
                sent,
                self.admitted(
                    (ChannelRequest::RequestX11 {
                        want_reply: false,
                        single_connection,
                        x11_protocol,
                        x11_cookie,
                        screen,
                    }),
                ),
            ),
    {
        self.submit(
            ChannelRequest::RequestX11 {
                want_reply: false,
                single_connection,
                x11_protocol,
                x11_cookie,
                screen,
            },
        )
    }

    /// Asks for agent forwarding, without waiting for the server's answer.
    pub fn request_agent_forwarding(&self) -> (sent: Result<(&H, ChannelRequest), WrappedError>)
        ensures
            Self::sent_as(
                sent,
                self.admitted((ChannelRequest::AgentForward { want_reply: false })),
            ),
    {
        self.submit(ChannelRequest::AgentForward { want_reply: false })
    }

    /// Reports a new window size.
    pub fn window_change(
        &self,
        col_width: u32,
        row_height: u32,
        pix_width: u32,
        pix_height: u32,
    ) -> (sent: Result<(&H, ChannelRequest), WrappedError>)
        ensures
            Self::sent_as(
                sent,
                self.admitted(
                    (ChannelRequest::WindowChange {
                        col_width,
                        row_height,
                        pix_width,
                        pix_height,
                    }),
                ),
            ),
    {
        self.submit(ChannelRequest::WindowChange { col_width, row_height, pix_width, pix_height })
    }

    /// Sends `data`.
    pub fn data(&self, data: Vec<u8>) -> (sent: Result<(&H, ChannelRequest), WrappedError>)
        ensures
            Self::sent_as(sent, self.admitted((ChannelRequest::Data { data }))),
    {
        self.submit(ChannelRequest::Data { data })
    }

    /// Signals the end of the data.
    pub fn eof(&self) -> (sent: Result<(&H, ChannelRequest), WrappedError>)
        ensures
            Self::sent_as(sent, self.admitted(ChannelRequest::Eof)),
    {
        self.submit(ChannelRequest::Eof)
    }

    /// Closes the channel.
    pub fn close(&self) -> (sent: Result<(&H, ChannelRequest), WrappedError>)
        ensures
            Self::sent_as(sent, self.admitted(ChannelRequest::Close)),
    {
        self.submit(ChannelRequest::Close)
    }

    /// Once the channel has been taken out, the handle refuses every
    /// operation, whatever it would send, as a use after consumption.
    pub proof fn taken_channel_refuses(
        before: Self,
        after: Self,
        taken: Option<H>,
        request: ChannelRequest,
    )
        requires
            Self::take_step(before, after, taken),
        ensures
            after.admitted(request) == Err::<(H, ChannelRequest), WrappedError>(
                WrappedError::ChannelAlreadyConsumed,
            ),
            after.id_of() == Err::<u32, WrappedError>(WrappedError::ChannelAlreadyConsumed),
            WrappedError::ChannelAlreadyConsumed.category_of()
                == crate::error::ErrorCategory::PreconditionViolation,
    {
    }
}

/// What a write to a channel amounts to: any failure of the engine counts as
/// the one failure to send.
pub fn send_outcome<E>(written: Result<(), E>) -> (outcome: Result<(), WrappedError>)
    ensures
        written is Ok ==> outcome is Ok,
        written is Err ==> outcome == Err::<(), WrappedError>(WrappedError::SendFailed),
{
    match written {
        Ok(()) => Ok(()),
        Err(_) => Err(WrappedError::SendFailed),
    }
}

} // verus!
