//! A leader-based, weighted-quorum consensus state machine.
//!
//! Nodes agree on a monotonically increasing sequence of epochs, each
//! identified by an ordinal id and a content hash.  The crate holds the
//! round/step automaton that drives proposal, voting, quorum accumulation
//! and commit, together with the wire-message shapes it exchanges and the
//! weighted-majority rule it enforces.  Transport, signing, timers and the
//! application that supplies epoch content are external collaborators: the
//! driving loop performs those calls and feeds their outcomes back into the
//! state machine one transition at a time.

pub mod braft;
pub mod error;
pub mod messages;
pub mod types;
