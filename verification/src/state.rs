//! The supervisor's books as a mathematical value, and the rule by which one
//! input changes them and is answered.

use vstd::prelude::*;

use crate::input::{Command, Input};
use crate::node::{Direction, NodeId};
use crate::output::{Event, Internal, Output};
use crate::report::{clean_stop_message, report_message};

verus! {

/// What the supervisor knows of its peers.
///
/// The three collections are kept independently: a peer may be in any
/// combination of them.
pub struct State {
    /// The peers with a raw connection, each with the direction in which the
    /// connection was opened.
    pub connected: Map<NodeId, Direction>,
    /// The peers whose connection has completed the secure upgrade.
    pub upgraded: Set<NodeId>,
    /// The peers whose connection has ended. Nothing ever leaves this set.
    pub stopped: Set<NodeId>,
}

impl State {
    /// The books of a supervisor that has seen no input.
    pub open spec fn empty() -> State {
        State { connected: Map::empty(), upgraded: Set::empty(), stopped: Set::empty() }
    }

    /// Whether the books name finitely many peers. Those of a supervisor
    /// always do.
    pub open spec fn finite(self) -> bool {
        &&& self.connected.dom().finite()
        &&& self.upgraded.finite()
        &&& self.stopped.finite()
    }

    /// The books after `input` was taken note of.
    pub open spec fn next(self, input: Input) -> State {
        match input {
            Input::Accepted(id) => State {
                connected: self.connected.insert(id, Direction::Incoming),
                ..self
            },
            Input::Connected(id) => State {
                connected: self.connected.insert(id, Direction::Outgoing),
                ..self
            },
            Input::Command(_) => self,
            Input::DuplicateConnRejected(id, _) => State {
                connected: self.connected.remove(id),
                ..self
            },
            Input::Receive(_, _) => self,
            Input::Stopped(id, _) => State {
                upgraded: self.upgraded.remove(id),
                stopped: self.stopped.insert(id),
                ..self
            },
            Input::Upgraded(id) => State { upgraded: self.upgraded.insert(id), ..self },
            Input::UpgradeFailed(id, _) => State { connected: self.connected.remove(id), ..self },
        }
    }

    /// Whether `out` is the answer owed to `command` with these books.
    pub open spec fn answers_command(self, command: Command, out: Seq<Output>) -> bool {
        match command {
            Command::Accept => out =~= seq![Output::Internal(Internal::Accept)],
            Command::Connect(info) => out =~= seq![Output::Internal(Internal::Connect(info))],
            Command::Disconnect(id) => out =~= seq![Output::Internal(Internal::Stop(id))],
            Command::Msg(id, message) => if self.upgraded.contains(id) {
                out =~= seq![Output::Internal(Internal::SendMessage(id, message))]
            } else {
                out =~= Seq::<Output>::empty()
            },
        }
    }

    /// Whether `out` is the answer owed to `input` with these books.
    ///
    /// The answer is determined by the books and the input in every case but
    /// one: a connection that stopped without an error is reported with a
    /// report made on the spot, of which only the message is fixed.
    pub open spec fn answers(self, input: Input, out: Seq<Output>) -> bool {
        match input {
            Input::Accepted(id) => out =~= seq![
                Output::Event(Event::Connected(id, Direction::Incoming)),
                Output::Internal(Internal::Upgrade(id)),
            ],
            Input::Connected(id) => out =~= seq![
                Output::Event(Event::Connected(id, Direction::Outgoing)),
                Output::Internal(Internal::Upgrade(id)),
            ],
            Input::Command(command) => self.answers_command(command, out),
            Input::DuplicateConnRejected(id, report) => out =~= seq![
                Output::Event(Event::DuplicateConnRejected(id, report)),
            ],
            Input::Receive(id, message) => out =~= seq![Output::Event(Event::Message(id, message))],
            Input::Stopped(id, Some(report)) => out =~= seq![
                Output::Event(Event::Disconnected(id, report)),
            ],
            Input::Stopped(id, None) => {
                &&& out.len() == 1
                &&& out[0] matches Output::Event(Event::Disconnected(peer, report))
                &&& peer == id
                &&& report_message(report) == clean_stop_message()
            },
            Input::Upgraded(id) => out =~= seq![Output::Event(Event::Upgraded(id))],
            Input::UpgradeFailed(id, report) => out =~= seq![
                Output::Event(Event::UpgradeFailed(id, report)),
            ],
        }
    }
}

} // verus!
