//! The wire-message protocol: three packet shapes and their constructors.
//!
//! Pure data, no behaviour beyond shape predicates.  Signatures are attached
//! by the signing layer outside the core, so the constructors leave
//! `vote_sign` empty.

use vstd::prelude::*;

use crate::types::VoteSign;

verus! {

/// Sent by the Proposer to all nodes (or relayed) to announce a candidate
/// epoch.
pub struct BroadcastPropose {
    pub epoch_id: u64,
    pub epoch_hash: u64,
    pub vote_sign: Option<VoteSign>,
}

/// Sent by a Follower back to the Proposer, carrying its vote signature for
/// that epoch.
pub struct ResponsePropose {
    pub epoch_id: u64,
    pub epoch_hash: u64,
    pub vote_sign: Option<VoteSign>,
}

/// Sent by the Proposer once quorum is reached, announcing the epoch final
/// and carrying the collected signatures as evidence.
pub struct BroadcastCommit {
    pub epoch_id: u64,
    pub epoch_hash: u64,
    pub vote_signs: Vec<VoteSign>,
}

/// A packet sent or received over the network.
pub enum Packet {
    BroadcastPropose(BroadcastPropose),
    ResponsePropose(ResponsePropose),
    BroadcastCommit(BroadcastCommit),
}

impl Packet {
    /// True exactly on the `BroadcastPropose` variant.
    pub fn is_broadcast_propose(&self) -> (r: bool)
        ensures
            r == (*self is BroadcastPropose),
    {
        matches!(self, Packet::BroadcastPropose(_))
    }

    /// True exactly on the `ResponsePropose` variant.
    pub fn is_response_propose(&self) -> (r: bool)
        ensures
            r == (*self is ResponsePropose),
    {
        matches!(self, Packet::ResponsePropose(_))
    }

    /// A `ResponsePropose` for the given epoch, with no signature yet.
    pub fn response_propose_from_id_hash(epoch_id: u64, epoch_hash: u64) -> (r: Self)
        ensures
            r matches Packet::ResponsePropose(p)
                && p.epoch_id == epoch_id
                && p.epoch_hash == epoch_hash
                && p.vote_sign is None,
    {
        Self::ResponsePropose(ResponsePropose { epoch_id, epoch_hash, vote_sign: None })
    }

    /// A `BroadcastPropose` for the given epoch, with no signature yet.
    pub fn broadcast_propose_from_id_hash(epoch_id: u64, epoch_hash: u64) -> (r: Self)
        ensures
            r matches Packet::BroadcastPropose(p)
                && p.epoch_id == epoch_id
                && p.epoch_hash == epoch_hash
                && p.vote_sign is None,
    {
        Self::BroadcastPropose(BroadcastPropose { epoch_id, epoch_hash, vote_sign: None })
    }

    /// A `BroadcastCommit` for the given epoch, carrying the full evidence
    /// list.
    pub fn broadcast_commit_from_id_hash(epoch_id: u64, epoch_hash: u64, vote_signs: Vec<VoteSign>) -> (r: Self)
        ensures
            r matches Packet::BroadcastCommit(p)
                && p.epoch_id == epoch_id
                && p.epoch_hash == epoch_hash
                && p.vote_signs@ == vote_signs@,
    {
        Self::BroadcastCommit(BroadcastCommit { epoch_id, epoch_hash, vote_signs })
    }
}

} // verus!
