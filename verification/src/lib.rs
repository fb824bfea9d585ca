//! Decision core of a peer-to-peer connection supervisor.
//!
//! The supervisor keeps the books on every peer connection of a node: which
//! peers have a raw connection and in which direction it was opened, which of
//! them have completed the secure upgrade, and which have stopped. It performs
//! no I/O. Each fact reported by the transport and each command of the owning
//! application arrives as one [`Input`]; [`Protocol::transition`] updates the
//! books and answers with the ordered list of [`Output`]s that the surrounding
//! code has to carry out or forward.

pub mod input;
pub mod laws;
pub mod message;
pub mod node;
pub mod output;
pub mod protocol;
pub mod report;
pub mod state;

pub use input::{Command, Input};
pub use message::{Message, PeerInfo};
pub use node::{Direction, NodeId};
pub use output::{Event, Internal, Output};
pub use protocol::Protocol;
pub use state::State;
