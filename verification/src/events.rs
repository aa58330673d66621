//! The event bridge: what the protocol engine reports, as events for the
//! host, and the rule that nothing follows a disconnect.

use vstd::prelude::*;
use crate::channel::SshChannel;
use crate::error::WrappedError;

verus! {

/// How an event reaches the host.
#[derive(Clone, Copy, Debug, PartialEq, Eq, Structural)]
pub enum Delivery {
    /// The event is queued and the engine goes on at once; the host's pace
    /// never holds the engine back.
    NonBlocking,
    /// The engine waits for the host's answer.
    Awaited,
}

/// Why a session ended.
#[derive(Debug, PartialEq, Eq)]
pub enum DisconnectReason {
    /// The peer closed the session.
    ReceivedDisconnect,
    /// Anything else.
    Error(WrappedError),
}

/// An event for the host. `K` is the caller's type of a server key, `H` that
/// of an open channel.
#[derive(Debug, PartialEq, Eq)]
pub enum ClientEvent<K, H> {
    /// The server offers this key; the host decides whether to go on.
    ServerKeyCheck { key: K },
    Data { channel: u32, data: Vec<u8> },
    ExtendedData { channel: u32, ext: u32, data: Vec<u8> },
    ChannelEof { channel: u32 },
    ChannelClose { channel: u32 },
    /// The session has ended: without an error where the peer closed it.
    Disconnected { error: Option<WrappedError> },
    /// The server opened a channel for an X11 connection.
    X11ChannelOpen { channel: SshChannel<H>, originator_address: String, originator_port: u32 },
    /// The server opened a channel for a connection to a forwarded port.
    TcpipChannelOpen {
        channel: SshChannel<H>,
        connected_address: String,
        connected_port: u32,
        originator_address: String,
        originator_port: u32,
    },
    /// The server opened a channel to the agent.
    AgentChannelOpen { channel: SshChannel<H> },
    Banner { text: String },
}

impl<K, H> ClientEvent<K, H> {
    /// How this event reaches the host: the key check alone is waited for.
    pub open spec fn delivery_of(self) -> Delivery {
        if self is ServerKeyCheck {
            Delivery::Awaited
        } else {
            Delivery::NonBlocking
        }
    }

    /// How this event reaches the host.
    pub fn delivery(&self) -> (mode: Delivery)
        ensures
            mode == self.delivery_of(),
            mode == Delivery::Awaited <==> self is ServerKeyCheck,
    {
        match self {
            ClientEvent::ServerKeyCheck { .. } => Delivery::Awaited,
            _ => Delivery::NonBlocking,
        }
    }
}

/// What reaches the host of an event that is reported to a bridge whose
/// session has ended or not: the event as it is, or nothing after the end.
pub open spec fn passed_on<K, H>(ended: bool, event: ClientEvent<K, H>) -> Option<
    ClientEvent<K, H>,
> {
    if ended {
        None
    } else {
        Some(event)
    }
}

/// Whether the session has ended once `event` has been reported.
pub open spec fn ended_after<K, H>(ended: bool, event: ClientEvent<K, H>) -> bool {
    ended || event is Disconnected
}

/// What reaches the host of `events`, reported one after the other in this
/// order.
pub open spec fn relayed<K, H>(ended: bool, events: Seq<ClientEvent<K, H>>) -> Seq<
    ClientEvent<K, H>,
>
    decreases events.len(),
{
    if events.len() == 0 {
        Seq::empty()
    } else {
        let rest = relayed(ended_after(ended, events[0]), events.drop_first());
        match passed_on(ended, events[0]) {
            Some(event) => seq![event] + rest,
            None => rest,
        }
    }
}

/// The bridge of one connection. It remembers whether the session has ended.
#[derive(Debug)]
pub struct SSHClientHandler {
    disconnected: bool,
}

impl SSHClientHandler {
    /// Whether the end of the session has been reported.
    pub closed spec fn ended(self) -> bool {
        self.disconnected
    }

    /// What one report does: the event reaches the host unless the session
    /// had ended before, and a disconnect ends it.
    pub open spec fn report_step<K, H>(
        before: Self,
        after: Self,
        event: ClientEvent<K, H>,
        passed: Option<ClientEvent<K, H>>,
    ) -> bool {
        &&& passed == passed_on(before.ended(), event)
        &&& after.ended() == ended_after(before.ended(), event)
    }

    /// The bridge of a connection that is being established.
    pub fn new() -> (handler: Self)
        ensures
            !handler.ended(),
    {
        SSHClientHandler { disconnected: false }
    }

    /// Whether the end of the session has been reported.
    pub fn is_disconnected(&self) -> (ended: bool)
        ensures
            ended == self.ended(),
    {
        self.disconnected
    }

    /// Passes an event of the engine on to the host, unless the session has
    /// ended.
    pub fn report<K, H>(&mut self, event: ClientEvent<K, H>) -> (passed: Option<ClientEvent<K, H>>)
        ensures
            Self::report_step(*old(self), *final(self), event, passed),
    {
        if self.disconnected {
            None
        } else {
            if let ClientEvent::Disconnected { .. } = &event {
                self.disconnected = true;
            }
            Some(event)
        }
    }

    /// The server offers `key`: the host is asked, and its answer awaited.
    pub fn check_server_key<K, H>(&self, key: K) -> (check: ClientEvent<K, H>)
        ensures
            check == (ClientEvent::<K, H>::ServerKeyCheck { key }),
            check.delivery_of() == Delivery::Awaited,
    {
        ClientEvent::ServerKeyCheck { key }
    }

    /// Data arrived on a channel.
    pub fn data<K, H>(&mut self, channel: u32, data: Vec<u8>) -> (passed: Option<
        ClientEvent<K, H>,
    >)
        ensures
            Self::report_step(
                *old(self),
                *final(self),
                (ClientEvent::<K, H>::Data { channel, data }),
                passed,
            ),
    {
        self.report(ClientEvent::Data { channel, data })
    }

    /// Data arrived on a channel's extended stream `ext`.
    pub fn extended_data<K, H>(&mut self, channel: u32, ext: u32, data: Vec<u8>) -> (passed:
        Option<ClientEvent<K, H>>)
        ensures
            Self::report_step(
                *old(self),
                *final(self),
                (ClientEvent::<K, H>::ExtendedData { channel, ext, data }),
                passed,
            ),
    {
        self.report(ClientEvent::ExtendedData { channel, ext, data })
    }

    /// The peer sent the end of a channel's data.
    pub fn channel_eof<K, H>(&mut self, channel: u32) -> (passed: Option<ClientEvent<K, H>>)
        ensures
            Self::report_step(
                *old(self),
                *final(self),
                (ClientEvent::<K, H>::ChannelEof { channel }),
                passed,
            ),
    {
        self.report(ClientEvent::ChannelEof { channel })
    }

    /// The peer closed a channel.
    pub fn channel_close<K, H>(&mut self, channel: u32) -> (passed: Option<ClientEvent<K, H>>)
        ensures
            Self::report_step(
                *old(self),
                *final(self),
                (ClientEvent::<K, H>::ChannelClose { channel }),
                passed,
            ),
    {
        self.report(ClientEvent::ChannelClose { channel })
    }

    /// The session ended. The host learns of it once, without an error where
    /// the peer closed the session, and of nothing after it.
    pub fn disconnected<K, H>(&mut self, reason: DisconnectReason) -> (passed: Option<
        ClientEvent<K, H>,
    >)
        ensures
            final(self).ended(),
            Self::report_step(
                *old(self),
                *final(self),
                (ClientEvent::<K, H>::Disconnected {
                    error: match reason {
                        DisconnectReason::ReceivedDisconnect => None,
                        DisconnectReason::Error(error) => Some(error),
                    },
                }),
                passed,
            ),
    {
        let error = match reason {
            DisconnectReason::ReceivedDisconnect => None,
            DisconnectReason::Error(error) => Some(error),
        };
        self.report(ClientEvent::Disconnected { error })
    }

    /// The server opened a channel for an X11 connection. The host gets the
    /// only handle on it.
    pub fn server_channel_open_x11<K, H>(
        &mut self,
        id: u32,
        channel: H,
        originator_address: String,
        originator_port: u32,
    ) -> (passed: Option<ClientEvent<K, H>>)
        ensures
            match passed {
                Some(event) => {
                    &&& !old(self).ended()
                    &&& event matches ClientEvent::X11ChannelOpen {
                        channel: handle,
                        originator_address: address,
                        originator_port: port,
                    }
                    &&& handle.held() == Some(channel)
                    &&& handle.number() == id
                    &&& address == originator_address
                    &&& port == originator_port
                },
                None => old(self).ended(),
            },
            final(self).ended() == old(self).ended(),
    {
        self.report(
            ClientEvent::X11ChannelOpen {
                channel: SshChannel::new(id, channel),
                originator_address,
                originator_port,
            },
        )
    }

    /// The server opened a channel for a connection to a forwarded port. The
    /// host gets the only handle on it.
    pub fn server_channel_open_forwarded_tcpip<K, H>(
        &mut self,
        id: u32,
        channel: H,
        connected_address: String,
        connected_port: u32,
        originator_address: String,
        originator_port: u32,
    ) -> (passed: Option<ClientEvent<K, H>>)
        ensures
            match passed {
                Some(event) => {
                    &&& !old(self).ended()
                    &&& event matches ClientEvent::TcpipChannelOpen {
                        channel: handle,
                        connected_address: to_address,
                        connected_port: to_port,
                        originator_address: from_address,
                        originator_port: from_port,
                    }
                    &&& handle.held() == Some(channel)
                    &&& handle.number() == id
                    &&& to_address == connected_address
                    &&& to_port == connected_port
                    &&& from_address == originator_address
                    &&& from_port == originator_port
                },
                None => old(self).ended(),
            },
            final(self).ended() == old(self).ended(),
    {
        self.report(
            ClientEvent::TcpipChannelOpen {
                channel: SshChannel::new(id, channel),
                connected_address,
                connected_port,
                originator_address,
                originator_port,
            },
        )
    }

    /// The server opened a channel to the agent. The host gets the only
    /// handle on it.
    pub fn server_channel_open_agent_forward<K, H>(&mut self, id: u32, channel: H) -> (passed:
        Option<ClientEvent<K, H>>)
        ensures
            match passed {
                Some(event) => {
                    &&& !old(self).ended()
                    &&& event matches ClientEvent::AgentChannelOpen { channel: handle }
                    &&& handle.held() == Some(channel)
                    &&& handle.number() == id
                },
                None => old(self).ended(),
            },
            final(self).ended() == old(self).ended(),
    {
        self.report(ClientEvent::AgentChannelOpen { channel: SshChannel::new(id, channel) })
    }

    /// The server sent a banner.
    pub fn auth_banner<K, H>(&mut self, banner: String) -> (passed: Option<ClientEvent<K, H>>)
        ensures
            Self::report_step(
                *old(self),
                *final(self),
                (ClientEvent::<K, H>::Banner { text: banner }),
                passed,
            ),
    {
        self.report(ClientEvent::Banner { text: banner })
    }
}

/// What the host's answer to a key check means for the handshake: the
/// decision where the host gave one, and a failure where the host's callback
/// failed, never a decision made in its place.
pub fn server_key_decision(answer: Result<bool, String>) -> (decision: Result<bool, WrappedError>)
    ensures
        match answer {
            Ok(accepted) => decision == Ok::<bool, WrappedError>(accepted),
            Err(text) => decision == Err::<bool, WrappedError>(WrappedError::Node(text)),
        },
{
    match answer {
        Ok(accepted) => Ok(accepted),
        Err(text) => Err(WrappedError::Node(text)),
    }
}

proof fn nothing_relayed_after_the_end<K, H>(events: Seq<ClientEvent<K, H>>)
    ensures
        relayed(true, events).len() == 0,
    decreases events.len(),
{
    if events.len() > 0 {
        nothing_relayed_after_the_end(events.drop_first());
    }
}

proof fn relayed_is_prefix<K, H>(events: Seq<ClientEvent<K, H>>)
    ensures
        ({
            let passed = relayed(false, events);
            &&& passed.len() <= events.len()
            &&& events.len() > 0 ==> passed.len() > 0
            &&& forall|i: int| 0 <= i < passed.len() ==> passed[i] == events[i]
            &&& forall|i: int| 0 <= i < passed.len() - 1 ==> !(events[i] is Disconnected)
            &&& 0 < passed.len() < events.len() ==> events[passed.len() - 1] is Disconnected
        }),
    decreases events.len(),
{
    if events.len() > 0 {
        let rest = events.drop_first();
        if events[0] is Disconnected {
            nothing_relayed_after_the_end(rest);
            assert(relayed(false, events) =~= seq![events[0]]);
        } else {
            let tail = relayed(false, rest);
            relayed_is_prefix(rest);
            let passed = seq![events[0]] + tail;
            assert(relayed(false, events) == passed);
            assert forall|i: int| 0 <= i < passed.len() implies passed[i] == events[i] by {
                if i > 0 {
                    assert(passed[i] == tail[i - 1]);
                    assert(rest[i - 1] == events[i]);
                }
            }
            assert forall|i: int| 0 <= i < passed.len() - 1 implies !(events[i] is Disconnected) by {
                if i > 0 {
                    assert(rest[i - 1] == events[i]);
                }
            }
            if 0 < passed.len() < events.len() {
                if tail.len() > 0 {
                    assert(rest[tail.len() - 1] == events[passed.len() - 1]);
                }
            }
        }
    }
}

/// The host sees the engine's events in the engine's order, each as it was
/// reported and none left out, up to the end of the session: a disconnect is
/// the last event that is passed on, and only a disconnect stops the
/// passing. So the events of one channel are never reordered, and the end of
/// a session is reported once.
pub proof fn events_pass_in_order_until_disconnect<K, H>(events: Seq<ClientEvent<K, H>>)
    ensures
        ({
            let passed = relayed(false, events);
            &&& passed.len() <= events.len()
            &&& forall|i: int| 0 <= i < passed.len() ==> passed[i] == events[i]
            &&& forall|i: int| 0 <= i < passed.len() - 1 ==> !(passed[i] is Disconnected)
            &&& passed.len() < events.len() ==> passed.len() > 0 && passed[passed.len() - 1]
                is Disconnected
        }),
{
    relayed_is_prefix(events);
}

} // verus!
