//! Payloads that pass through the supervisor unread.

use vstd::prelude::*;

verus! {

/// An application message exchanged with a peer.
#[derive(Clone, Debug, PartialEq, Eq)]
pub struct Message {
    /// The encoded message.
    pub payload: Vec<u8>,
}

/// What the transport needs in order to dial a peer.
#[derive(Clone, Debug, PartialEq, Eq)]
pub struct PeerInfo {
    /// The identifier that the dialed peer is expected to present.
    pub id: crate::node::NodeId,
    /// The address to dial, as the transport understands it.
    pub address: String,
}

} // verus!
