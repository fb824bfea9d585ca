//! Peer identity and connection direction.

use vstd::prelude::*;

verus! {

/// Identifier of a peer, stable for the lifetime of a connection.
///
/// The supervisor treats an identifier as an atom: two identifiers name the
/// same peer exactly when their values are equal.
#[derive(Clone, Copy, Debug, PartialEq, Eq, Hash, Structural)]
pub struct NodeId {
    value: u64,
}

impl NodeId {
    /// The number that this identifier carries.
    pub closed spec fn spec_value(self) -> u64 {
        self.value
    }

    /// The identifier that carries `value`.
    pub closed spec fn of(value: u64) -> NodeId {
        NodeId { value }
    }

    /// An identifier is determined by the number it carries.
    pub broadcast proof fn value_determines_id(self, other: NodeId)
        ensures
            #[trigger] self.spec_value() == #[trigger] other.spec_value() <==> self == other,
    {
    }

    /// The identifier made from a number carries that number.
    pub broadcast proof fn value_of_made(value: u64)
        ensures
            #[trigger] NodeId::of(value).spec_value() == value,
    {
    }

    /// Making an identifier from the number that one carries gives that one.
    pub broadcast proof fn made_of_value(self)
        ensures
            NodeId::of(#[trigger] self.spec_value()) == self,
    {
    }

    /// Makes the identifier that carries `value`.
    pub fn new(value: u64) -> (id: NodeId)
        ensures
            id == NodeId::of(value),
            id.spec_value() == value,
    {
        NodeId { value }
    }

    /// Returns the number that this identifier carries.
    #[verifier::when_used_as_spec(spec_value)]
    pub fn value(self) -> (value: u64)
        ensures
            value == self.spec_value(),
    {
        self.value
    }
}

/// What ties an identifier to the number it carries.
pub broadcast group group_node_id {
    NodeId::value_determines_id,
    NodeId::value_of_made,
    NodeId::made_of_value,
}

/// How a raw connection came to be: accepted from a dialing peer, or dialed
/// by this node.
#[derive(Clone, Copy, Debug, PartialEq, Eq, Structural)]
pub enum Direction {
    /// The peer dialed this node.
    Incoming,
    /// This node dialed the peer.
    Outgoing,
}

} // verus!
