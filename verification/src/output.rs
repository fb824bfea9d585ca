//! What the supervisor answers: events for the consumers above it and
//! actions for the transport below it.

use vstd::prelude::*;

use crate::message::{Message, PeerInfo};
use crate::node::{Direction, NodeId};

verus! {

/// A fact for the consumers above the supervisor.
#[derive(Debug)]
pub enum Event {
    /// A raw connection to the peer exists, opened in the given direction.
    Connected(NodeId, Direction),
    /// The connection to the peer ended: with the error that ended it, or,
    /// where there was none, with a report that says so.
    Disconnected(NodeId, eyre::Report),
    /// A second connection of the peer was turned away, for the given
    /// reason.
    DuplicateConnRejected(NodeId, eyre::Report),
    /// The peer sent a message.
    Message(NodeId, Message),
    /// The connection to the peer is now secure.
    Upgraded(NodeId),
    /// The connection to the peer could not be made secure, for the given
    /// reason.
    UpgradeFailed(NodeId, eyre::Report),
}

/// An action for the transport to carry out.
#[derive(Debug)]
pub enum Internal {
    /// Start, or go on, accepting connections.
    Accept,
    /// Dial the described peer.
    Connect(PeerInfo),
    /// Send the message to the peer.
    SendMessage(NodeId, Message),
    /// Tear down the connection to the peer.
    Stop(NodeId),
    /// Run the secure upgrade on the connection to the peer.
    Upgrade(NodeId),
}

/// One element of the supervisor's answer.
#[derive(Debug)]
pub enum Output {
    /// To be forwarded upwards.
    Event(Event),
    /// To be carried out by the transport.
    Internal(Internal),
}

impl From<Event> for Output {
    fn from(event: Event) -> (output: Output) {
        Output::Event(event)
    }
}

impl vstd::std_specs::convert::FromSpecImpl<Event> for Output {
    open spec fn obeys_from_spec() -> bool {
        true
    }

    open spec fn from_spec(event: Event) -> Output {
        Output::Event(event)
    }
}

impl From<Internal> for Output {
    fn from(action: Internal) -> (output: Output) {
        Output::Internal(action)
    }
}

impl vstd::std_specs::convert::FromSpecImpl<Internal> for Output {
    open spec fn obeys_from_spec() -> bool {
        true
    }

    open spec fn from_spec(action: Internal) -> Output {
        Output::Internal(action)
    }
}

} // verus!
