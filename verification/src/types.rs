//! Basic data types of the consensus core: node roles, voters and vote
//! signatures.
//!
//! Epoch ids, epoch hashes, node ids and weights are carried as plain `u64`
//! values; a signature is opaque bytes.  A voter's position in the roster
//! snapshot taken when the current epoch began is its index, used to
//! cross-reference vote signatures.

use vstd::prelude::*;

verus! {

/// Node role.
///
/// Proposer and Follower are voters and take part in consensus;
/// an Observer only tracks committed epochs.
#[derive(Clone, Copy, Debug, PartialEq, Eq, Structural)]
pub enum Role {
    Proposer,
    Follower,
    Observer,
}

impl Role {
    /// True exactly on `Role::Proposer`.
    pub fn is_proposer(&self) -> (r: bool)
        ensures
            r == (*self is Proposer),
    {
        matches!(self, Role::Proposer)
    }

    /// True exactly on `Role::Follower`.
    pub fn is_follower(&self) -> (r: bool)
        ensures
            r == (*self is Follower),
    {
        matches!(self, Role::Follower)
    }

    /// True exactly on `Role::Observer`.
    pub fn is_observer(&self) -> (r: bool)
        ensures
            r == (*self is Observer),
    {
        matches!(self, Role::Observer)
    }
}

/// Sub-phase within a round: 0 is propose/respond, 1 is collect/commit.
#[derive(Clone, Copy, Debug, PartialEq, Eq, Structural)]
pub struct Step(pub u8);

/// How a collaborator error should be treated by the driving loop.
#[derive(Clone, Copy, Debug, PartialEq, Eq, Structural)]
pub enum ErrorBehavior {
    Panic,
    Ignore,
    Retry,
}

/// One voting node: its id, its public key and its voting weight.
#[derive(Clone, Debug)]
pub struct Voter {
    pub id: u64,
    pub public_key: Vec<u8>,
    pub weight: u64,
}

/// One voter's endorsement of a specific epoch: the voter's index in the
/// roster snapshot plus opaque signature bytes.
///
/// A vote sign carries no epoch reference itself; its meaning is only valid
/// in the context of the packet that carried it.
#[derive(Clone, Debug)]
pub struct VoteSign {
    pub idx: u64,
    pub sign: Vec<u8>,
}

} // verus!
