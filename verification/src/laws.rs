//! What holds of every step of the supervisor, proved from the rule in
//! [`State::next`] and [`State::answers`].

use vstd::prelude::*;

use crate::input::{Command, Input};
use crate::message::Message;
use crate::node::{Direction, NodeId};
use crate::output::{Event, Internal, Output};
use crate::report::{clean_stop_message, report_message};
use crate::state::State;

verus! {

/// After a connection from a peer was accepted, the peer is on record as
/// connected, incoming, and the answer is the event that tells of the
/// connection followed by the request to upgrade it, whatever was on record
/// before.
pub proof fn accepted_peer_is_incoming(books: State, id: NodeId, out: Seq<Output>)
    requires
        books.answers(Input::Accepted(id), out),
    ensures
        books.next(Input::Accepted(id)).connected.contains_pair(id, Direction::Incoming),
        out == seq![
            Output::Event(Event::Connected(id, Direction::Incoming)),
            Output::Internal(Internal::Upgrade(id)),
        ],
{
}

/// After a dialed connection to a peer was established, the peer is on
/// record as connected, outgoing, and the answer is the event that tells of
/// the connection followed by the request to upgrade it, whatever was on
/// record before.
pub proof fn dialed_peer_is_outgoing(books: State, id: NodeId, out: Seq<Output>)
    requires
        books.answers(Input::Connected(id), out),
    ensures
        books.next(Input::Connected(id)).connected.contains_pair(id, Direction::Outgoing),
        out == seq![
            Output::Event(Event::Connected(id, Direction::Outgoing)),
            Output::Internal(Internal::Upgrade(id)),
        ],
{
}

/// A message for a peer that is not upgraded is dropped: the answer is empty
/// and the books stay as they are.
pub proof fn message_to_other_peer_is_dropped(
    books: State,
    id: NodeId,
    payload: Message,
    out: Seq<Output>,
)
    requires
        !books.upgraded.contains(id),
        books.answers(Input::Command(Command::Msg(id, payload)), out),
    ensures
        out == Seq::<Output>::empty(),
        books.next(Input::Command(Command::Msg(id, payload))) == books,
{
}

/// A message for an upgraded peer is handed to the transport, alone and
/// unchanged, and the books stay as they are.
pub proof fn message_to_upgraded_peer_is_sent(
    books: State,
    id: NodeId,
    payload: Message,
    out: Seq<Output>,
)
    requires
        books.upgraded.contains(id),
        books.answers(Input::Command(Command::Msg(id, payload)), out),
    ensures
        out == seq![Output::Internal(Internal::SendMessage(id, payload))],
        books.next(Input::Command(Command::Msg(id, payload))) == books,
{
}

/// Reporting twice in a row that a peer stopped without an error leaves the
/// books as the first report left them: the peer is among the stopped peers
/// once, and is the only one there if none had stopped before. The second
/// report is still answered with a disconnection event for the peer, with the
/// message of a clean stop.
pub proof fn stopping_twice_is_stopping_once(books: State, id: NodeId, out: Seq<Output>)
    requires
        books.next(Input::Stopped(id, None)).answers(Input::Stopped(id, None), out),
    ensures
        books.next(Input::Stopped(id, None)).next(Input::Stopped(id, None)) == books.next(
            Input::Stopped(id, None),
        ),
        books.next(Input::Stopped(id, None)).next(Input::Stopped(id, None)).stopped
            == books.stopped.insert(id),
        books.stopped == Set::<NodeId>::empty() ==> books.next(Input::Stopped(id, None)).next(
            Input::Stopped(id, None),
        ).stopped == set![id],
        out.len() == 1,
        out[0] matches Output::Event(Event::Disconnected(peer, report)) && peer == id
            && report_message(report) == clean_stop_message(),
{
    let once = books.next(Input::Stopped(id, None));
    let twice = once.next(Input::Stopped(id, None));
    assert(twice.upgraded =~= once.upgraded);
    assert(twice.stopped =~= once.stopped);
    assert(books.stopped == Set::<NodeId>::empty() ==> twice.stopped =~= set![id]);
}

/// After the upgrade of a connection failed, the peer is not on record as
/// connected, and the answer is the event that tells of the failure with the
/// error that was handed in, whether or not the peer was on record before.
pub proof fn failed_upgrade_forgets_peer(
    books: State,
    id: NodeId,
    err: eyre::Report,
    out: Seq<Output>,
)
    requires
        books.answers(Input::UpgradeFailed(id, err), out),
    ensures
        !books.next(Input::UpgradeFailed(id, err)).connected.contains_key(id),
        !books.connected.contains_key(id) ==> books.next(Input::UpgradeFailed(id, err)) == books,
        out == seq![Output::Event(Event::UpgradeFailed(id, err))],
{
    let after = books.next(Input::UpgradeFailed(id, err));
    assert(!books.connected.contains_key(id) ==> after.connected =~= books.connected);
}

/// The books and the input determine the answer, but for the report that is
/// made for a connection that stopped without an error: of that one they
/// determine the message.
pub proof fn answer_is_determined(books: State, input: Input, one: Seq<Output>, other: Seq<Output>)
    requires
        books.answers(input, one),
        books.answers(input, other),
    ensures
        one.len() == other.len(),
        !(input matches Input::Stopped(_, None)) ==> one == other,
        input matches Input::Stopped(id, None) ==> {
            &&& one[0] matches Output::Event(Event::Disconnected(peer, report))
            &&& other[0] matches Output::Event(Event::Disconnected(other_peer, other_report))
            &&& peer == id
            &&& other_peer == id
            &&& report_message(report) == report_message(other_report)
        },
{
}

/// A peer comes to be on record as connected only through an accepted or a
/// dialed connection of its own, and is then recorded with the direction of
/// that connection.
pub proof fn connected_only_by_accepting_or_dialing(books: State, input: Input, id: NodeId)
    requires
        !books.connected.contains_key(id),
        books.next(input).connected.contains_key(id),
    ensures
        input == Input::Accepted(id) || input == Input::Connected(id),
        input == Input::Accepted(id) ==> books.next(input).connected[id] == Direction::Incoming,
        input == Input::Connected(id) ==> books.next(input).connected[id] == Direction::Outgoing,
{
}

/// A peer comes to be among the upgraded peers only through the report that
/// its upgrade succeeded.
pub proof fn upgraded_only_by_upgrade(books: State, input: Input, id: NodeId)
    requires
        !books.upgraded.contains(id),
        books.next(input).upgraded.contains(id),
    ensures
        input == Input::Upgraded(id),
{
}

/// A message is handed to the transport only for a peer that is upgraded.
pub proof fn sends_only_to_upgraded_peers(
    books: State,
    input: Input,
    out: Seq<Output>,
    i: int,
    id: NodeId,
    payload: Message,
)
    requires
        books.answers(input, out),
        0 <= i < out.len(),
        out[i] == Output::Internal(Internal::SendMessage(id, payload)),
    ensures
        books.upgraded.contains(id),
        input == Input::Command(Command::Msg(id, payload)),
{
}

/// No input takes a peer out of the stopped peers.
pub proof fn stopped_peers_stay_stopped(books: State, input: Input, id: NodeId)
    requires
        books.stopped.contains(id),
    ensures
        books.next(input).stopped.contains(id),
{
}

/// The books of a supervisor that has seen no input name no peer, and so
/// finitely many.
pub proof fn empty_books_are_finite()
    ensures
        State::empty().finite(),
        State::empty().connected.len() == 0,
        State::empty().upgraded.len() == 0,
        State::empty().stopped.len() == 0,
{
}

/// Books that name finitely many peers still do so after any input.
pub proof fn finite_books_stay_finite(books: State, input: Input)
    requires
        books.finite(),
    ensures
        books.next(input).finite(),
{
}

} // verus!
