//! What passes between the relay and the publish/subscribe transport: the
//! plan of a session, the messages to publish, the events that arrive, and
//! the decision a receive worker takes on each event.

use crate::identity::{generate, identity_of, IdentityUnavailable};
use crate::player_cmd::PlayerCmd;
use vstd::prelude::*;

verus! {

/// Seconds between keep-alive probes on the broker connection.
pub const KEEP_ALIVE_SECS: u16 = 5;

/// Number of requests the broker client may hold before a publish blocks.
pub const REQUEST_CAPACITY: usize = 10;

/// Delivery quality asked of the broker.
#[derive(Copy, Clone, Debug, PartialEq, Eq, Structural)]
pub enum QoS {
    AtMostOnce,
    AtLeastOnce,
}

/// Why a relay session could not be started.
#[derive(Copy, Clone, Debug, PartialEq, Eq, Structural)]
pub enum StartError {
    /// The local account could not be resolved.
    IdentityUnavailable,
    /// The broker could not be reached, or refused the subscription.
    ConnectionError,
}

/// An error that ends the session while it runs.
#[derive(Copy, Clone, Debug, PartialEq, Eq, Structural)]
pub enum FatalError {
    /// The inbound stream reported that the connection is closed.
    ConnectionClosed,
}

/// Everything the transport needs to open the session: whom to connect to, as
/// whom, and what to subscribe to.
#[derive(Debug)]
pub struct SessionPlan {
    pub identity: String,
    pub server_addr: String,
    pub server_port: u16,
    pub keep_alive_secs: u16,
    pub request_capacity: usize,
    pub channel: String,
    pub subscribe_qos: QoS,
}

impl SessionPlan {
    /// The plan connects to `server_addr:server_port` as `identity` and
    /// subscribes to `channel` at most once, with the fixed keep-alive and
    /// request capacity.
    pub open spec fn describes(
        &self,
        identity: Seq<char>,
        server_addr: Seq<char>,
        server_port: u16,
        channel: Seq<char>,
    ) -> bool {
        &&& self.identity@ == identity
        &&& self.server_addr@ == server_addr
        &&& self.server_port == server_port
        &&& self.keep_alive_secs == KEEP_ALIVE_SECS
        &&& self.request_capacity == REQUEST_CAPACITY
        &&& self.channel@ == channel
        &&& self.subscribe_qos == QoS::AtMostOnce
    }

    /// Plans the session of a client, given how the making of its identity
    /// went: without an identity there is no plan, and with one the plan is
    /// fixed by it and the other arguments.
    pub fn with_identity(
        identity: Result<String, IdentityUnavailable>,
        server_addr: &str,
        server_port: u16,
        channel: &str,
    ) -> (plan: Result<SessionPlan, StartError>)
        ensures
            identity is Err ==> plan is Err && plan->Err_0 == StartError::IdentityUnavailable,
            identity matches Ok(id) ==> plan is Ok && plan->Ok_0.describes(
                id@,
                server_addr@,
                server_port,
                channel@,
            ),
    {
        match identity {
            Ok(id) => Ok(
                SessionPlan {
                    identity: id,
                    server_addr: server_addr.to_owned(),
                    server_port,
                    keep_alive_secs: KEEP_ALIVE_SECS,
                    request_capacity: REQUEST_CAPACITY,
                    channel: channel.to_owned(),
                    subscribe_qos: QoS::AtMostOnce,
                },
            ),
            Err(_) => Err(StartError::IdentityUnavailable),
        }
    }

    /// Generates the identity of a new session and plans the session for it.
    ///
    /// Fails only with `IdentityUnavailable`. The account name and the random
    /// suffix are the system's to choose; everything else in the plan is
    /// fixed by the arguments.
    pub fn prepare(server_addr: &str, server_port: u16, channel: &str) -> (plan: Result<
        SessionPlan,
        StartError,
    >)
        ensures
            plan matches Ok(p) ==> exists|username: Seq<char>, suffix: u32|
                p.describes(identity_of(username, suffix), server_addr@, server_port, channel@),
            plan matches Err(e) ==> e == StartError::IdentityUnavailable,
    {
        let identity = generate();
        let ghost made = identity;
        let plan = SessionPlan::with_identity(identity, server_addr, server_port, channel);
        proof {
            if plan is Ok {
                let (username, suffix) = choose|username: Seq<char>, suffix: u32|
                    made->Ok_0@ == identity_of(username, suffix);
                assert(plan->Ok_0.describes(
                    identity_of(username, suffix),
                    server_addr@,
                    server_port,
                    channel@,
                ));
            }
        }
        plan
    }
}

/// One message to publish.
#[derive(Debug)]
pub struct Publication {
    pub topic: String,
    pub qos: QoS,
    pub retain: bool,
    pub payload: Vec<u8>,
}

/// A `Publication` as plain values.
pub struct PublicationView {
    pub topic: Seq<char>,
    pub qos: QoS,
    pub retain: bool,
    pub payload: Seq<u8>,
}

impl View for Publication {
    type V = PublicationView;

    open spec fn view(&self) -> PublicationView {
        PublicationView {
            topic: self.topic@,
            qos: self.qos,
            retain: self.retain,
            payload: self.payload@,
        }
    }
}

/// The message that carries `cmd` on `channel`: its payload is the single
/// wire byte of the command, sent at least once and not retained.
pub open spec fn announcement(channel: Seq<char>, cmd: PlayerCmd) -> PublicationView {
    PublicationView {
        topic: channel,
        qos: QoS::AtLeastOnce,
        retain: false,
        payload: seq![cmd.wire()],
    }
}

/// Builds the message that carries `cmd` on `channel`.
pub fn announce(channel: &String, cmd: PlayerCmd) -> (publication: Publication)
    ensures
        publication@ == announcement(channel@, cmd),
{
    let mut payload: Vec<u8> = Vec::new();
    payload.push(cmd.encode());
    let publication = Publication {
        topic: channel.clone(),
        qos: QoS::AtLeastOnce,
        retain: false,
        payload,
    };
    assert(publication.payload@ =~= seq![cmd.wire()]);
    publication
}

/// What the inbound stream of the transport delivers.
#[derive(Debug)]
pub enum InboundEvent {
    /// A message was delivered.
    Message { topic: String, payload: Vec<u8> },
    /// Any other traffic on the connection, such as an acknowledgement.
    Other,
    /// The connection is closed; nothing further will arrive.
    ConnectionClosed,
}

/// An `InboundEvent` as plain values.
pub enum InboundView {
    Message { topic: Seq<char>, payload: Seq<u8> },
    Other,
    ConnectionClosed,
}

impl View for InboundEvent {
    type V = InboundView;

    open spec fn view(&self) -> InboundView {
        match self {
            InboundEvent::Message { topic, payload } => InboundView::Message {
                topic: topic@,
                payload: payload@,
            },
            InboundEvent::Other => InboundView::Other,
            InboundEvent::ConnectionClosed => InboundView::ConnectionClosed,
        }
    }
}

/// What the receive worker does about an inbound event.
#[derive(Copy, Clone, Debug, PartialEq, Eq, Structural)]
pub enum RecvAction {
    /// Hand the command to the local player.
    Dispatch(PlayerCmd),
    /// Nothing to do: the event is no message on the session's channel.
    Ignore,
    /// A message on the channel that carries no command: report and drop it.
    Unrecognized,
    /// The connection is closed: stop with a fatal error.
    Terminate,
}

/// The reaction of a listening receive worker on `channel` to `event`.
///
/// A message counts only if its topic is the channel. Its first payload byte
/// is then decoded; an empty payload or a byte that names no command is
/// unrecognized.
pub open spec fn reaction(channel: Seq<char>, event: InboundView) -> RecvAction {
    match event {
        InboundView::Message { topic, payload } => {
            if topic != channel {
                RecvAction::Ignore
            } else if payload.len() == 0 {
                RecvAction::Unrecognized
            } else {
                match PlayerCmd::from_wire(payload[0]) {
                    Some(cmd) => RecvAction::Dispatch(cmd),
                    None => RecvAction::Unrecognized,
                }
            }
        },
        InboundView::Other => RecvAction::Ignore,
        InboundView::ConnectionClosed => RecvAction::Terminate,
    }
}

/// Decides what a listening receive worker on `channel` does about `event`.
pub fn react(channel: &String, event: &InboundEvent) -> (action: RecvAction)
    ensures
        action == reaction(channel@, event@),
{
    match event {
        InboundEvent::Message { topic, payload } => {
            if *topic != *channel {
                RecvAction::Ignore
            } else if payload.len() == 0 {
                RecvAction::Unrecognized
            } else {
                match PlayerCmd::try_from(payload[0]) {
                    Ok(cmd) => RecvAction::Dispatch(cmd),
                    Err(_) => RecvAction::Unrecognized,
                }
            }
        },
        InboundEvent::Other => RecvAction::Ignore,
        InboundEvent::ConnectionClosed => RecvAction::Terminate,
    }
}

} // verus!
