//! The connection actor: one client's entire session as a state machine.
//!
//! An actor owns one connection's lifecycle — handshake, serving,
//! teardown — and is driven by events from exactly two concurrent
//! sources: the client's own inbound lines and the private bus
//! subscription, whichever resolves first. The machine itself does no
//! I/O: each step consumes one event and returns the actions (writes,
//! publishes, teardown) for the transport driver to perform, so the whole
//! decision logic is verified here while the driver stays a thin loop.

use vstd::prelude::*;

use crate::bus::{msg_matches, Message};
use crate::decimal::dec_rep;
use crate::decimal::u16_dec;
use crate::protocol::{
    ack_spec, banner_spec, handle_acknowledgment_message, handle_forward_message,
    handle_incoming_message, login_banner, payload_spec, upper_of,
};

verus! {

/// The lifecycle of one connection. Owned exclusively by its actor; no
/// other component mutates it.
pub enum ConnState {
    /// The login banner has not been confirmed written yet.
    Handshake,
    /// Normal relay operation: waiting on inbound lines and on the bus.
    Serving,
    /// Terminal: the transport is released and the subscription dropped.
    Closed,
}

/// One event for the state machine, handed over by whichever of the two
/// concurrent waits resolved first.
pub enum ConnEvent {
    /// The actor was just spawned for an accepted connection.
    Started,
    /// The transport reported the outcome of the last requested write;
    /// `false` is a write fault.
    WriteDone(bool),
    /// The private subscription delivered a message some connection
    /// published.
    Broadcast(Message),
    /// The private subscription fell behind and this many messages were
    /// dropped before it could read them.
    Lagged(u64),
    /// The bus itself was torn down.
    BusClosed,
    /// One full inbound line from the client, terminator included.
    Line(String),
    /// The client closed its write side: a read returned zero bytes.
    Eof,
    /// Reading from the client's transport failed.
    ReadFault,
}

/// One instruction back to the transport driver.
pub enum ConnAction {
    /// Write this text to the client and flush it, then report the
    /// outcome as a `WriteDone` event.
    WriteText(String),
    /// Publish this message on the shared bus.
    Publish(Message),
    /// Close both transport halves and drop the subscription.
    ReleaseTransport,
}

/// One connection's identity and current state.
pub struct Actor {
    /// Unique identity minted at accept time. Peer ports can in principle
    /// coincide across addresses or reconnections; this cannot, and it is
    /// what the self-exclusion check uses.
    pub id: u64,
    /// The wire label shown to other clients: the peer's port.
    pub port: u16,
    /// Where in its lifecycle this connection stands.
    pub state: ConnState,
}

/// `m` is exactly the message a connection publishes for the inbound line
/// `line`: attributed to the connection, carrying the uppercased line
/// wrapped with its label.
pub open spec fn publishes(a: Actor, line: Seq<char>, m: Message) -> bool {
    &&& m.origin == a.id
    &&& m.payload@ == payload_spec(a.port, upper_of(line))
    &&& m.from@ == dec_rep(a.port as nat)
}

/// The actions write exactly one text, namely `text`, and nothing else.
pub open spec fn writes_exactly(actions: Seq<ConnAction>, text: Seq<char>) -> bool {
    &&& actions.len() == 1
    &&& (actions[0] matches ConnAction::WriteText(t) && t@ == text)
}

/// The actions tear the connection down and nothing else.
pub open spec fn releases(actions: Seq<ConnAction>) -> bool {
    &&& actions.len() == 1
    &&& actions[0] is ReleaseTransport
}

/// The full transition relation of the connection state machine:
/// `step_spec(pre, event, post, actions)` holds exactly when a step from
/// `pre` on `event` may end in `post` while instructing the driver to
/// perform `actions`.
///
/// Identity and label never change. The handshake writes the banner and
/// serves only once that write succeeded. While serving, a broadcast from
/// another connection is relayed verbatim and one from the connection
/// itself is silently skipped; a gap or a torn-down bus is tolerated; an
/// inbound line is published transformed and acknowledged with the fixed
/// text; end of file, a read fault or a write fault closes the
/// connection, releasing its transport. The closed state is terminal.
pub open spec fn step_spec(
    pre: Actor,
    event: ConnEvent,
    post: Actor,
    actions: Seq<ConnAction>,
) -> bool {
    &&& post.id == pre.id
    &&& post.port == pre.port
    &&& match pre.state {
        ConnState::Handshake => match event {
            ConnEvent::Started => {
                &&& post.state is Handshake
                &&& writes_exactly(actions, banner_spec(pre.port))
            },
            ConnEvent::WriteDone(ok) => {
                if ok {
                    &&& post.state is Serving
                    &&& actions.len() == 0
                } else {
                    &&& post.state is Closed
                    &&& releases(actions)
                }
            },
            _ => {
                &&& post.state is Handshake
                &&& actions.len() == 0
            },
        },
        ConnState::Serving => match event {
            ConnEvent::Broadcast(m) => {
                if m.origin == pre.id {
                    &&& post.state is Serving
                    &&& actions.len() == 0
                } else {
                    &&& post.state is Serving
                    &&& writes_exactly(actions, m.payload@)
                }
            },
            ConnEvent::Lagged(_) => {
                &&& post.state is Serving
                &&& actions.len() == 0
            },
            ConnEvent::BusClosed => {
                &&& post.state is Serving
                &&& actions.len() == 0
            },
            ConnEvent::Line(l) => {
                &&& post.state is Serving
                &&& actions.len() == 2
                &&& (actions[0] matches ConnAction::Publish(m) && publishes(pre, l@, m))
                &&& (actions[1] matches ConnAction::WriteText(t) && t@ == ack_spec())
            },
            ConnEvent::Eof => {
                &&& post.state is Closed
                &&& releases(actions)
            },
            ConnEvent::ReadFault => {
                &&& post.state is Closed
                &&& releases(actions)
            },
            ConnEvent::WriteDone(ok) => {
                if ok {
                    &&& post.state is Serving
                    &&& actions.len() == 0
                } else {
                    &&& post.state is Closed
                    &&& releases(actions)
                }
            },
            ConnEvent::Started => {
                &&& post.state is Serving
                &&& actions.len() == 0
            },
        },
        ConnState::Closed => {
            &&& post.state is Closed
            &&& actions.len() == 0
        },
    }
}

impl Actor {
    /// A freshly accepted connection, about to write its login banner.
    pub fn new(id: u64, port: u16) -> (a: Actor)
        ensures
            a.id == id,
            a.port == port,
            a.state is Handshake,
    {
        Actor { id, port, state: ConnState::Handshake }
    }

    /// Consumes one event and returns the actions for the transport
    /// driver, moving the connection along [`step_spec`].
    pub fn step(&mut self, event: ConnEvent) -> (actions: Vec<ConnAction>)
        ensures
            step_spec(*old(self), event, *final(self), actions@),
    {
        match self.state {
            ConnState::Handshake => match event {
                ConnEvent::Started => {
                    let banner = login_banner(self.port);
                    let mut actions: Vec<ConnAction> = Vec::new();
                    actions.push(ConnAction::WriteText(banner));
                    actions
                },
                ConnEvent::WriteDone(ok) => {
                    if ok {
                        self.state = ConnState::Serving;
                        Vec::new()
                    } else {
                        self.state = ConnState::Closed;
                        let mut actions: Vec<ConnAction> = Vec::new();
                        actions.push(ConnAction::ReleaseTransport);
                        actions
                    }
                },
                _ => Vec::new(),
            },
            ConnState::Serving => match event {
                ConnEvent::Broadcast(m) => {
                    if m.origin == self.id {
                        Vec::new()
                    } else {
                        let mut actions: Vec<ConnAction> = Vec::new();
                        actions.push(ConnAction::WriteText(m.payload));
                        actions
                    }
                },
                ConnEvent::Lagged(_) => Vec::new(),
                ConnEvent::BusClosed => Vec::new(),
                ConnEvent::Line(l) => {
                    let transformed = handle_incoming_message(l.as_str());
                    let payload = handle_forward_message(self.port, transformed);
                    let from = u16_dec(self.port);
                    let m = Message { origin: self.id, payload, from };
                    let ack = handle_acknowledgment_message();
                    let mut actions: Vec<ConnAction> = Vec::new();
                    actions.push(ConnAction::Publish(m));
                    actions.push(ConnAction::WriteText(ack));
                    actions
                },
                ConnEvent::Eof => {
                    self.state = ConnState::Closed;
                    let mut actions: Vec<ConnAction> = Vec::new();
                    actions.push(ConnAction::ReleaseTransport);
                    actions
                },
                ConnEvent::ReadFault => {
                    self.state = ConnState::Closed;
                    let mut actions: Vec<ConnAction> = Vec::new();
                    actions.push(ConnAction::ReleaseTransport);
                    actions
                },
                ConnEvent::WriteDone(ok) => {
                    if ok {
                        Vec::new()
                    } else {
                        self.state = ConnState::Closed;
                        let mut actions: Vec<ConnAction> = Vec::new();
                        actions.push(ConnAction::ReleaseTransport);
                        actions
                    }
                },
                ConnEvent::Started => Vec::new(),
            },
            ConnState::Closed => Vec::new(),
        }
    }
}

/// A closed connection is terminal: whatever event still arrives, its
/// actor stays closed and instructs the driver to do nothing, so tearing
/// one connection down can never touch the transport of another.
pub proof fn lemma_closed_is_terminal(
    pre: Actor,
    event: ConnEvent,
    post: Actor,
    actions: Seq<ConnAction>,
)
    requires
        pre.state is Closed,
        step_spec(pre, event, post, actions),
    ensures
        post.state is Closed,
        actions.len() == 0,
{
}

/// A line submitted by one serving connection is relayed — uppercased and
/// prefixed with the sender's label — to every other serving connection,
/// and never echoed to the sender itself.
///
/// `m` is the message the sender's own step published for `line`; the bus
/// hands every subscriber its own matching copy. Any other serving
/// connection writes exactly the transformed payload to its client; the
/// sender's own subscription delivers the copy too, but its step writes
/// nothing for it.
pub proof fn lemma_line_fanout(
    sender: Actor,
    line: Seq<char>,
    m: Message,
    peer: Actor,
    peer_delivery: Message,
    peer_post: Actor,
    peer_actions: Seq<ConnAction>,
    sender_delivery: Message,
    sender_post: Actor,
    sender_actions: Seq<ConnAction>,
)
    requires
        sender.state is Serving,
        peer.state is Serving,
        peer.id != sender.id,
        publishes(sender, line, m),
        msg_matches(peer_delivery, m),
        msg_matches(sender_delivery, m),
        step_spec(peer, ConnEvent::Broadcast(peer_delivery), peer_post, peer_actions),
        step_spec(sender, ConnEvent::Broadcast(sender_delivery), sender_post, sender_actions),
    ensures
        writes_exactly(peer_actions, payload_spec(sender.port, upper_of(line))),
        sender_actions.len() == 0,
        peer_post.state is Serving,
        sender_post.state is Serving,
{
    assert(peer_delivery.origin == sender.id);
    assert(peer_delivery.origin != peer.id);
    assert(sender_delivery.origin == sender.id);
}

} // verus!
