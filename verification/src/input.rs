//! What the supervisor is told: commands of the owning application and facts
//! reported by the transport.

use vstd::prelude::*;

use crate::message::{Message, PeerInfo};
use crate::node::NodeId;

verus! {

/// A request of the application that owns the node.
#[derive(Debug)]
pub enum Command {
    /// Start, or go on, accepting connections.
    Accept,
    /// Dial the described peer.
    Connect(PeerInfo),
    /// Drop the connection to the peer. The peer counts as gone only once
    /// the transport reports that the connection stopped.
    Disconnect(NodeId),
    /// Send the message to the peer. The message is dropped, and nobody is
    /// told, unless the connection to the peer is upgraded: who needs to
    /// know that a message went out waits for the peer's upgrade first.
    Msg(NodeId, Message),
}

/// One thing for the supervisor to take note of.
#[derive(Debug)]
pub enum Input {
    /// The transport accepted a connection from the peer. The peer is put
    /// on record as connected, incoming, in place of any record it had.
    Accepted(NodeId),
    /// The application asks for something.
    Command(Command),
    /// The transport established the connection it dialed to the peer. The
    /// peer is put on record as connected, outgoing, in place of any record
    /// it had.
    Connected(NodeId),
    /// The transport turned away a second connection of the peer. This is
    /// treated like a failed upgrade: the record of the peer's raw
    /// connection is dropped and the rejection is reported, with the error,
    /// in an event of its own kind.
    DuplicateConnRejected(NodeId, eyre::Report),
    /// The peer sent a message. It is passed on whatever is on record for
    /// the peer: the transport is trusted to report messages of live,
    /// upgraded connections only.
    Receive(NodeId, Message),
    /// The connection to the peer ended, with the error that ended it if
    /// there was one. The peer is marked as stopped and is no longer
    /// upgraded; the record of its raw connection stays.
    Stopped(NodeId, Option<eyre::Report>),
    /// The secure upgrade of the connection to the peer succeeded. The peer
    /// is marked as upgraded, whether or not a raw connection is on record.
    Upgraded(NodeId),
    /// The secure upgrade of the connection to the peer failed. The record
    /// of the peer's raw connection is dropped; the peer is neither marked
    /// as stopped nor taken out of the upgraded peers.
    UpgradeFailed(NodeId, eyre::Report),
}

} // verus!
