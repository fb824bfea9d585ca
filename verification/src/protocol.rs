//! The supervisor itself: the books in executable form and the one operation
//! that changes them.

use std::collections::{HashMap, HashSet};

use vstd::prelude::*;
use vstd::relations::injective_on;
use vstd::seq_lib::seq_to_set_is_finite;
use vstd::set_lib::lemma_map_size;
use vstd::std_specs::hash::{axiom_spec_hash_keys_iter, spec_hash_keys_iter};
use vstd::std_specs::iter::IteratorSpec;

use crate::input::{Command, Input};
use crate::message::Message;
use crate::node::{Direction, NodeId};
use crate::output::{Event, Internal, Output};
use crate::report::{clean_stop_message, clean_stop_report, report_message};
use crate::state::State;

verus! {

broadcast use {vstd::std_specs::hash::group_hash_axioms, crate::node::group_node_id};

/// The set that a hash set stands for is finite: it is the set of the keys
/// that a walk over the hash set meets.
proof fn hash_set_is_finite(set: &HashSet<u64>)
    ensures
        set@.finite(),
{
    axiom_spec_hash_keys_iter(set);
    seq_to_set_is_finite(spec_hash_keys_iter(set).remaining().unref());
}

/// A set of identifiers that holds exactly the identifiers of finitely many
/// numbers is finite, and as large as the set of the numbers.
proof fn ids_match_values(values: Set<u64>, ids: Set<NodeId>)
    requires
        values.finite(),
        forall|id: NodeId| ids.contains(id) <==> values.contains(id.value()),
    ensures
        ids.finite(),
        ids.len() == values.len(),
{
    let make = |value: u64| NodeId::of(value);
    assert forall|id: NodeId| values.map(make).contains(id) == ids.contains(id) by {
        if ids.contains(id) {
            assert(values.contains(id.value()) && make(id.value()) == id);
        }
    }
    assert(values.map(make) =~= ids);
    assert(injective_on(make, values)) by {
        assert forall|a: u64, b: u64| #[trigger] make(a) == #[trigger] make(b) implies a == b by {
            assert(make(a).value() == a && make(b).value() == b);
        }
    }
    lemma_map_size(values, ids, make);
}

/// The connection supervisor of one node.
///
/// A supervisor starts out knowing no peer and learns of them through
/// [`Protocol::transition`] alone. It must be driven by one caller at a time,
/// with the inputs in the order in which they arrived.
pub struct Protocol {
    connected: HashMap<u64, Direction>,
    stopped: HashSet<u64>,
    upgraded: HashSet<u64>,
}

impl View for Protocol {
    type V = State;

    closed spec fn view(&self) -> State {
        State {
            connected: Map::new(
                |id: NodeId| self.connected@.contains_key(id.value()),
                |id: NodeId| self.connected@[id.value()],
            ),
            upgraded: Set::new(|id: NodeId| self.upgraded@.contains(id.value())),
            stopped: Set::new(|id: NodeId| self.stopped@.contains(id.value())),
        }
    }
}

impl Protocol {
    /// Returns the direction of the raw connection that is on record for the
    /// peer, if one is.
    pub fn direction_of(&self, id: NodeId) -> (direction: Option<Direction>)
        ensures
            direction == if self@.connected.contains_key(id) {
                Some(self@.connected[id])
            } else {
                None
            },
    {
        match self.connected.get(&id.value()) {
            Some(direction) => Some(*direction),
            None => None,
        }
    }

    /// Tells whether the peer is among the upgraded peers.
    pub fn is_upgraded(&self, id: NodeId) -> (upgraded: bool)
        ensures
            upgraded == self@.upgraded.contains(id),
    {
        self.upgraded.contains(&id.value())
    }

    /// Tells whether the peer is among the stopped peers.
    pub fn is_stopped(&self, id: NodeId) -> (stopped: bool)
        ensures
            stopped == self@.stopped.contains(id),
    {
        self.stopped.contains(&id.value())
    }

    /// The books of a supervisor name finitely many peers, whatever it has
    /// seen.
    pub proof fn books_are_finite(&self)
        ensures
            self@.finite(),
    {
        hash_set_is_finite(&self.upgraded);
        hash_set_is_finite(&self.stopped);
        ids_match_values(self.connected@.dom(), self@.connected.dom());
        ids_match_values(self.upgraded@, self@.upgraded);
        ids_match_values(self.stopped@, self@.stopped);
    }

    /// Returns the number of peers on record as connected.
    pub fn connected_count(&self) -> (count: usize)
        ensures
            count == self@.connected.len(),
    {
        proof {
            ids_match_values(self.connected@.dom(), self@.connected.dom());
        }
        self.connected.len()
    }

    /// Returns the number of upgraded peers.
    pub fn upgraded_count(&self) -> (count: usize)
        ensures
            count == self@.upgraded.len(),
    {
        proof {
            hash_set_is_finite(&self.upgraded);
            ids_match_values(self.upgraded@, self@.upgraded);
        }
        self.upgraded.len()
    }

    /// Returns the number of stopped peers.
    pub fn stopped_count(&self) -> (count: usize)
        ensures
            count == self@.stopped.len(),
    {
        proof {
            hash_set_is_finite(&self.stopped);
            ids_match_values(self.stopped@, self@.stopped);
        }
        self.stopped.len()
    }
}

impl Default for Protocol {
    /// A supervisor that knows no peer.
    fn default() -> (protocol: Protocol)
        ensures
            protocol@ == State::empty(),
    {
        let protocol = Protocol {
            connected: HashMap::new(),
            stopped: HashSet::new(),
            upgraded: HashSet::new(),
        };
        assert(protocol@.connected =~= Map::empty());
        assert(protocol@.upgraded =~= Set::empty());
        assert(protocol@.stopped =~= Set::empty());
        protocol
    }
}

impl Protocol {
    /// Takes note of one input and answers with what has to happen next, in
    /// the order in which it has to happen.
    pub fn transition(&mut self, input: Input) -> (out: Vec<Output>)
        ensures
            final(self)@ == old(self)@.next(input),
            old(self)@.answers(input, out@),
    {
        match input {
            Input::Accepted(id) => self.handle_accepted(id),
            Input::Command(command) => self.handle_command(command),
            Input::Connected(id) => self.handle_connected(id),
            Input::DuplicateConnRejected(id, report) => self.handle_duplicate_conn_rejected(
                id,
                report,
            ),
            Input::Receive(id, msg) => self.handle_receive(id, msg),
            Input::Stopped(id, report) => self.handle_stopped(id, report),
            Input::Upgraded(id) => self.handle_upgraded(id),
            Input::UpgradeFailed(id, err) => self.handle_upgrade_failed(id, err),
        }
    }

    /// Records an accepted connection and asks for its upgrade. A record
    /// that the peer already had is overwritten.
    fn handle_accepted(&mut self, id: NodeId) -> (out: Vec<Output>)
        ensures
            final(self)@ == (State {
                connected: old(self)@.connected.insert(id, Direction::Incoming),
                ..old(self)@
            }),
            out@ == seq![
                Output::Event(Event::Connected(id, Direction::Incoming)),
                Output::Internal(Internal::Upgrade(id)),
            ],
    {
        self.connected.insert(id.value(), Direction::Incoming);
        assert(self@.connected =~= old(self)@.connected.insert(id, Direction::Incoming));

        vec![
            Output::from(Event::Connected(id, Direction::Incoming)),
            Output::from(Internal::Upgrade(id)),
        ]
    }

    /// Turns a command into the action that carries it out. A message for a
    /// peer whose connection is not upgraded is dropped without a word.
    fn handle_command(&mut self, command: Command) -> (out: Vec<Output>)
        ensures
            final(self)@ == old(self)@,
            old(self)@.answers_command(command, out@),
    {
        match command {
            Command::Accept => vec![Output::from(Internal::Accept)],
            Command::Connect(info) => vec![Output::from(Internal::Connect(info))],
            Command::Disconnect(id) => {
                vec![Output::Internal(Internal::Stop(id))]
            },
            Command::Msg(peer_id, msg) => {
                if self.upgraded.contains(&peer_id.value()) {
                    vec![Output::from(Internal::SendMessage(peer_id, msg))]
                } else {
                    vec![]
                }
            },
        }
    }

    /// Records a dialed connection and asks for its upgrade. A record that
    /// the peer already had is overwritten.
    fn handle_connected(&mut self, id: NodeId) -> (out: Vec<Output>)
        ensures
            final(self)@ == (State {
                connected: old(self)@.connected.insert(id, Direction::Outgoing),
                ..old(self)@
            }),
            out@ == seq![
                Output::Event(Event::Connected(id, Direction::Outgoing)),
                Output::Internal(Internal::Upgrade(id)),
            ],
    {
        self.connected.insert(id.value(), Direction::Outgoing);
        assert(self@.connected =~= old(self)@.connected.insert(id, Direction::Outgoing));

        vec![
            Output::from(Event::Connected(id, Direction::Outgoing)),
            Output::from(Internal::Upgrade(id)),
        ]
    }

    /// Forgets the raw connection of a peer whose second connection was
    /// turned away, and reports the rejection. The peer is neither marked as
    /// stopped nor taken out of the upgraded peers.
    fn handle_duplicate_conn_rejected(&mut self, id: NodeId, report: eyre::Report) -> (out: Vec<
        Output,
    >)
        ensures
            final(self)@ == (State {
                connected: old(self)@.connected.remove(id),
                ..old(self)@
            }),
            out@ == seq![Output::Event(Event::DuplicateConnRejected(id, report))],
    {
        self.connected.remove(&id.value());
        assert(self@.connected =~= old(self)@.connected.remove(id));

        vec![Output::from(Event::DuplicateConnRejected(id, report))]
    }

    /// Passes a received message on, whatever is known of its sender.
    fn handle_receive(&self, id: NodeId, msg: Message) -> (out: Vec<Output>)
        ensures
            out@ == seq![Output::Event(Event::Message(id, msg))],
    {
        vec![Output::from(Event::Message(id, msg))]
    }

    /// Marks a peer as stopped and no longer upgraded, and reports the
    /// disconnection, with a report of its own making where the connection
    /// ended without an error. The record of the raw connection stays.
    fn handle_stopped(&mut self, id: NodeId, report: Option<eyre::Report>) -> (out: Vec<Output>)
        ensures
            final(self)@ == (State {
                upgraded: old(self)@.upgraded.remove(id),
                stopped: old(self)@.stopped.insert(id),
                ..old(self)@
            }),
            out@.len() == 1,
            out@[0] matches Output::Event(Event::Disconnected(peer, reported)) && peer == id && (
            match report {
                Some(given) => reported == given,
                None => report_message(reported) == clean_stop_message(),
            }),
    {
        self.upgraded.remove(&id.value());
        self.stopped.insert(id.value());
        assert(self@.upgraded =~= old(self)@.upgraded.remove(id));
        assert(self@.stopped =~= old(self)@.stopped.insert(id));

        let reported = match report {
            Some(given) => given,
            None => clean_stop_report(),
        };
        vec![Output::from(Event::Disconnected(id, reported))]
    }

    /// Marks a peer as upgraded and reports it, whether or not a raw
    /// connection of the peer is on record.
    fn handle_upgraded(&mut self, id: NodeId) -> (out: Vec<Output>)
        ensures
            final(self)@ == (State { upgraded: old(self)@.upgraded.insert(id), ..old(self)@ }),
            out@ == seq![Output::Event(Event::Upgraded(id))],
    {
        self.upgraded.insert(id.value());
        assert(self@.upgraded =~= old(self)@.upgraded.insert(id));

        vec![Output::from(Event::Upgraded(id))]
    }

    /// Forgets the raw connection of a peer whose upgrade failed, and reports
    /// the failure. The peer is neither marked as stopped nor taken out of
    /// the upgraded peers.
    fn handle_upgrade_failed(&mut self, id: NodeId, err: eyre::Report) -> (out: Vec<Output>)
        ensures
            final(self)@ == (State {
                connected: old(self)@.connected.remove(id),
                ..old(self)@
            }),
            out@ == seq![Output::Event(Event::UpgradeFailed(id, err))],
    {
        self.connected.remove(&id.value());
        assert(self@.connected =~= old(self)@.connected.remove(id));

        vec![Output::from(Event::UpgradeFailed(id, err))]
    }
}

} // verus!
