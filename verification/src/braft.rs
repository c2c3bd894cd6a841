//! The round/step consensus state machine.
//!
//! `BRaft` owns all node state and is mutated exclusively by its own
//! transition functions, one at a time.  The driving loop around it performs
//! the suspending work — racing a packet receive against a step timer,
//! invoking the application's hooks, sending packets — and feeds each
//! outcome back in as a plain value.  Every decision of the protocol is made
//! here: which packets are accepted, when the epoch advances, how vote
//! weight accumulates and when quorum is reached.

use vstd::prelude::*;

use crate::error::Error;
use crate::messages::Packet;
use crate::types::{Role, Voter, VoteSign};

verus! {

/// Sum of the weights of a voter roster.
pub open spec fn sum_voter_weights(voters: Seq<Voter>) -> int
    decreases voters.len(),
{
    if voters.len() == 0 {
        0
    } else {
        sum_voter_weights(voters.drop_last()) + voters.last().weight
    }
}

/// Weight contributed by one vote sign: the weight of the voter at its
/// index, or nothing when the index lies outside the roster.
pub open spec fn vote_weight(sign: VoteSign, voters: Seq<Voter>) -> int {
    if sign.idx < voters.len() {
        voters[sign.idx as int].weight as int
    } else {
        0
    }
}

/// Sum of the weights of all validly indexed vote signs in a collection,
/// counted with multiplicity.  Signs whose index lies outside the roster
/// contribute nothing.
pub open spec fn valid_vote_weight(signs: Seq<VoteSign>, voters: Seq<Voter>) -> int
    decreases signs.len(),
{
    if signs.len() == 0 {
        0
    } else {
        valid_vote_weight(signs.drop_last(), voters) + vote_weight(signs.last(), voters)
    }
}

/// The weighted-majority rule: quorum is a strict majority by weight,
/// `weight * 2 > total`.
pub open spec fn quorum_reached(weight: int, total: int) -> bool {
    weight * 2 > total
}

/// The role a node takes for an epoch: Observer by default, Follower when
/// its id appears in the roster, Proposer when the externally computed
/// proposer id equals its own.
pub open spec fn spec_role(voters: Seq<Voter>, node_id: u64, proposer: u64) -> Role {
    if proposer == node_id {
        Role::Proposer
    } else if exists|i: int| 0 <= i < voters.len() && voters[i].id == node_id {
        Role::Follower
    } else {
        Role::Observer
    }
}

/// What the driving loop must do next, as a function of role and step.
#[derive(Clone, Copy, Debug, PartialEq, Eq, Structural)]
pub enum Phase {
    /// Follower at step 0: race a receive against the step timer, then feed
    /// the packet to [`BRaft::wait_propose`] or the timeout to
    /// [`BRaft::handle_timeout`].
    WaitPropose,
    /// Follower at step 1: as above, but feed the packet to
    /// [`BRaft::wait_commit`].
    WaitCommit,
    /// Proposer at step 0: ask the application for the next epoch and feed
    /// it to [`BRaft::propose_epoch`].
    Propose,
    /// Proposer at step 1: feed every packet of the collection window to
    /// [`BRaft::collect_propose_packet`], then close the window with
    /// [`BRaft::collect_propose`].
    Collect,
    /// Observer, or a role/step pair with no action: do nothing.
    Idle,
}

/// What the driving loop must do with a packet the state machine has
/// examined.
#[derive(Clone, Copy, Debug, PartialEq, Eq, Structural)]
pub enum Directive {
    /// Notify the application of step entry, then send a signed
    /// `ResponsePropose` for this epoch back to the sender.
    Respond { epoch_id: u64, epoch_hash: u64 },
    /// An epoch was accepted: invoke the application's commit hook for it,
    /// then install the roster the hook returns.
    Committed { epoch_id: u64, epoch_hash: u64 },
    /// The packet was stale or of the wrong variant: log and drop it.
    Ignore,
}

/// The consensus node state.
///
/// `epoch_id` and `epoch_hash` identify the epoch currently being proposed
/// or voted on; `latest_epoch_id` is the last epoch this node itself drove
/// to commit.  `round` counts retries within the current epoch attempt and
/// `step` the sub-phase within a round.  `weight` is the quorum weight
/// accumulated for the in-flight epoch against `total_weight`, the cached
/// sum of all roster weights.  Voter indices in `vote_signs` are meaningful
/// only relative to the `voter_set` snapshot taken when the current epoch
/// began.
pub struct BRaft {
    pub node_id: u64,
    pub role: Role,
    pub latest_epoch_id: u64,
    pub epoch_id: u64,
    pub epoch_hash: u64,
    pub round: u64,
    pub step: u8,
    pub weight: u128,
    pub total_weight: u128,
    pub vote_signs: Vec<VoteSign>,
    pub voter_set: Vec<Voter>,
}

impl BRaft {
    /// Well-formedness: the step stays within its two sub-phases, the cached
    /// total is the roster's weight sum, and the accumulated weight is
    /// exactly the valid-vote weight of the collected signs.
    pub open spec fn wf(self) -> bool {
        &&& self.step <= 1
        &&& self.total_weight as int == sum_voter_weights(self.voter_set@)
        &&& self.weight as int == valid_vote_weight(self.vote_signs@, self.voter_set@)
    }

    /// Build the node state from the startup snapshot: the local node id,
    /// the latest committed epoch, the roster, and the externally computed
    /// proposer for that epoch's hash.
    pub fn new(node_id: u64, epoch_id: u64, epoch_hash: u64, voter_set: Vec<Voter>, proposer: u64) -> (s: Self)
        ensures
            s.wf(),
            s.node_id == node_id,
            s.role == spec_role(voter_set@, node_id, proposer),
            s.latest_epoch_id == epoch_id,
            s.epoch_id == epoch_id,
            s.epoch_hash == epoch_hash,
            s.round == 0,
            s.step == 0,
            s.weight == 0,
            s.vote_signs@ == Seq::<VoteSign>::empty(),
            s.voter_set@ == voter_set@,
    {
        let total_weight = Self::sum_weights(&voter_set);
        let role = Self::compute_role(&voter_set, node_id, proposer);

        BRaft {
            node_id,
            role,
            latest_epoch_id: epoch_id,
            epoch_id,
            epoch_hash,
            round: 0,
            step: 0,
            weight: 0,
            total_weight,
            vote_signs: Vec::new(),
            voter_set,
        }
    }

    /// Cache the roster's total voting weight.
    fn sum_weights(voters: &Vec<Voter>) -> (total: u128)
        ensures
            total as int == sum_voter_weights(voters@),
    {
        let mut total: u128 = 0;
        let mut i: usize = 0;
        while i < voters.len()
            invariant
                0 <= i <= voters@.len(),
                total as int == sum_voter_weights(voters@.take(i as int)),
                total as int <= i * (u64::MAX as int),
            decreases voters@.len() - i,
        {
            proof {
                lemma_sum_take_step(voters@, i as int);
            }
            total = total + voters[i].weight as u128;
            i = i + 1;
        }
        proof {
            assert(voters@.take(voters@.len() as int) =~= voters@);
        }
        total
    }

    /// Derive the local role from the roster and the chosen proposer.
    fn compute_role(voters: &Vec<Voter>, node_id: u64, proposer: u64) -> (role: Role)
        ensures
            role == spec_role(voters@, node_id, proposer),
    {
        let mut role = Role::Observer;
        let mut i: usize = 0;
        while i < voters.len()
            invariant
                0 <= i <= voters@.len(),
                role is Follower <==> exists|j: int|
                    0 <= j < i && voters@[j].id == node_id,
                role is Follower || role is Observer,
            decreases voters@.len() - i,
        {
            if voters[i].id == node_id {
                role = Role::Follower;
            }
            i = i + 1;
        }
        if node_id == proposer {
            role = Role::Proposer;
        }
        role
    }

    /// The action the driving loop must take for the current role and step.
    pub fn tick_phase(&self) -> (p: Phase)
        ensures
            p == self.spec_phase(),
    {
        if self.role.is_follower() && self.step == 0 {
            Phase::WaitPropose
        } else if self.role.is_follower() && self.step == 1 {
            Phase::WaitCommit
        } else if self.role.is_proposer() && self.step == 0 {
            Phase::Propose
        } else if self.role.is_proposer() && self.step == 1 {
            Phase::Collect
        } else {
            Phase::Idle
        }
    }

    /// The phase dispatch as a function of role and step.
    pub open spec fn spec_phase(self) -> Phase {
        if self.role is Follower && self.step == 0 {
            Phase::WaitPropose
        } else if self.role is Follower && self.step == 1 {
            Phase::WaitCommit
        } else if self.role is Proposer && self.step == 0 {
            Phase::Propose
        } else if self.role is Proposer && self.step == 1 {
            Phase::Collect
        } else {
            Phase::Idle
        }
    }
}

/// How commit acceptance transforms the node state: an incoming epoch with
/// a strictly greater id is adopted — the evidence list and accumulated
/// weight are cleared, the round and step restart — while a stale or
/// duplicate id leaves the state untouched.
pub open spec fn accept_commit_rel(pre: BRaft, post: BRaft, epoch_id: u64, epoch_hash: u64) -> bool {
    if pre.epoch_id < epoch_id {
        &&& post.epoch_id == epoch_id
        &&& post.epoch_hash == epoch_hash
        &&& post.round == 0
        &&& post.step == 0
        &&& post.vote_signs@ == Seq::<VoteSign>::empty()
        &&& post.weight == 0
        &&& post.node_id == pre.node_id
        &&& post.role == pre.role
        &&& post.latest_epoch_id == pre.latest_epoch_id
        &&& post.total_weight == pre.total_weight
        &&& post.voter_set == pre.voter_set
    } else {
        post == pre
    }
}

/// The tracked epoch id after a commit or proposal with id `epoch_id` is
/// offered: the greater of the two.
pub open spec fn next_epoch_id(cur: u64, epoch_id: u64) -> u64 {
    if cur < epoch_id {
        epoch_id
    } else {
        cur
    }
}

/// Everything except `round` and `step` agrees between two states.
pub open spec fn same_epoch_state(pre: BRaft, post: BRaft) -> bool {
    &&& post.node_id == pre.node_id
    &&& post.role == pre.role
    &&& post.latest_epoch_id == pre.latest_epoch_id
    &&& post.epoch_id == pre.epoch_id
    &&& post.epoch_hash == pre.epoch_hash
    &&& post.weight == pre.weight
    &&& post.total_weight == pre.total_weight
    &&& post.vote_signs@ == pre.vote_signs@
    &&& post.voter_set == pre.voter_set
}

impl BRaft {
    /// Whether an announced epoch would be answered with a vote: only an id
    /// strictly above the tracked one deserves a response.
    pub open spec fn propose_directive(self, epoch_id: u64, epoch_hash: u64) -> Directive {
        if self.epoch_id < epoch_id {
            Directive::Respond { epoch_id, epoch_hash }
        } else {
            Directive::Ignore
        }
    }

    /// Whether an announced commit is adopted.
    pub open spec fn commit_directive(self, epoch_id: u64, epoch_hash: u64) -> Directive {
        if self.epoch_id < epoch_id {
            Directive::Committed { epoch_id, epoch_hash }
        } else {
            Directive::Ignore
        }
    }

    /// Examine a `BroadcastPropose` announcement: an epoch id strictly
    /// above the tracked one must be answered — the application is notified
    /// of step entry and a signed `ResponsePropose` goes back to the sender
    /// — while a stale or duplicate id is logged and ignored.  The node
    /// state itself does not change either way.
    pub fn process_propose(&self, epoch_id: u64, epoch_hash: u64) -> (d: Directive)
        ensures
            d == self.propose_directive(epoch_id, epoch_hash),
    {
        if self.epoch_id < epoch_id {
            Directive::Respond { epoch_id, epoch_hash }
        } else {
            Directive::Ignore
        }
    }

    /// Accept an incoming epoch if its id strictly exceeds the tracked one:
    /// clear the evidence list and the accumulated weight, adopt the new
    /// epoch, and restart the round and step.  A stale or duplicate id is
    /// logged and ignored with no state change.  Returns whether the epoch
    /// was accepted; on acceptance the driving loop must invoke the
    /// application's commit hook and install the roster it returns.
    pub fn verify_and_accept_epoch(&mut self, epoch_id: u64, epoch_hash: u64) -> (accepted: bool)
        requires
            old(self).wf(),
        ensures
            final(self).wf(),
            accepted == (old(self).epoch_id < epoch_id),
            accept_commit_rel(*old(self), *final(self), epoch_id, epoch_hash),
            final(self).epoch_id == next_epoch_id(old(self).epoch_id, epoch_id),
            final(self).epoch_id >= old(self).epoch_id,
            final(self).epoch_id > old(self).epoch_id <==> epoch_id > old(self).epoch_id,
    {
        if self.epoch_id < epoch_id {
            self.vote_signs = Vec::new();
            self.epoch_id = epoch_id;
            self.epoch_hash = epoch_hash;
            self.round = 0;
            self.step = 0;
            self.weight = 0;
            true
        } else {
            false
        }
    }

    /// Replace the roster with the one the application's commit hook
    /// returned for the next epoch, and refresh the cached total weight.
    /// Called right after an epoch was accepted, so the evidence list is
    /// empty and the indices of future vote signs refer to the new
    /// snapshot.
    pub fn install_voter_set(&mut self, voter_set: Vec<Voter>)
        requires
            old(self).wf(),
            old(self).vote_signs@.len() == 0,
        ensures
            final(self).wf(),
            final(self).voter_set@ == voter_set@,
            final(self).total_weight as int == sum_voter_weights(voter_set@),
            final(self).node_id == old(self).node_id,
            final(self).role == old(self).role,
            final(self).latest_epoch_id == old(self).latest_epoch_id,
            final(self).epoch_id == old(self).epoch_id,
            final(self).epoch_hash == old(self).epoch_hash,
            final(self).round == old(self).round,
            final(self).step == old(self).step,
            final(self).weight == old(self).weight,
            final(self).vote_signs@ == old(self).vote_signs@,
    {
        self.total_weight = Self::sum_weights(&voter_set);
        self.voter_set = voter_set;
    }

    /// Dispatch a packet received while waiting for a proposal (Follower,
    /// step 0).  A `BroadcastPropose` is examined as a proposal, a
    /// `BroadcastCommit` runs epoch acceptance, and a `ResponsePropose` is
    /// out of place here — an error packet, logged and dropped.
    pub fn wait_propose(&mut self, pkt: &Packet) -> (d: Directive)
        requires
            old(self).wf(),
        ensures
            final(self).wf(),
            *pkt matches Packet::BroadcastPropose(p) ==> *final(self) == *old(self)
                && d == old(self).propose_directive(p.epoch_id, p.epoch_hash),
            *pkt is ResponsePropose ==> *final(self) == *old(self) && d == Directive::Ignore,
            *pkt matches Packet::BroadcastCommit(p) ==> accept_commit_rel(
                *old(self),
                *final(self),
                p.epoch_id,
                p.epoch_hash,
            ) && d == old(self).commit_directive(p.epoch_id, p.epoch_hash),
    {
        match pkt {
            Packet::BroadcastPropose(bc) => self.process_propose(bc.epoch_id, bc.epoch_hash),
            Packet::ResponsePropose(_) => Directive::Ignore,
            Packet::BroadcastCommit(bc) => {
                let epoch_id = bc.epoch_id;
                let epoch_hash = bc.epoch_hash;
                if self.verify_and_accept_epoch(epoch_id, epoch_hash) {
                    Directive::Committed { epoch_id, epoch_hash }
                } else {
                    Directive::Ignore
                }
            },
        }
    }

    /// Dispatch a packet received while waiting for a commit (Follower,
    /// step 1).  Only a `BroadcastCommit` matches this step and runs epoch
    /// acceptance; any other variant is an error packet, logged and
    /// dropped.
    pub fn wait_commit(&mut self, pkt: &Packet) -> (d: Directive)
        requires
            old(self).wf(),
        ensures
            final(self).wf(),
            *pkt matches Packet::BroadcastCommit(p) ==> accept_commit_rel(
                *old(self),
                *final(self),
                p.epoch_id,
                p.epoch_hash,
            ) && d == old(self).commit_directive(p.epoch_id, p.epoch_hash),
            !(*pkt is BroadcastCommit) ==> *final(self) == *old(self) && d == Directive::Ignore,
    {
        match pkt {
            Packet::BroadcastCommit(bc) => {
                let epoch_id = bc.epoch_id;
                let epoch_hash = bc.epoch_hash;
                if self.verify_and_accept_epoch(epoch_id, epoch_hash) {
                    Directive::Committed { epoch_id, epoch_hash }
                } else {
                    Directive::Ignore
                }
            },
            _ => Directive::Ignore,
        }
    }

    /// A step timer fired before any packet arrived: the normal no-progress
    /// signal, not a failure.  A waiting Follower increments its retry
    /// round and returns to step 0 to await the next proposal attempt; no
    /// epoch state changes.  In any other role/step pair the signal has no
    /// effect.
    pub fn handle_timeout(&mut self)
        requires
            old(self).wf(),
            old(self).round < u64::MAX,
        ensures
            final(self).wf(),
            old(self).role is Follower && old(self).step <= 1 ==> {
                &&& final(self).round == old(self).round + 1
                &&& final(self).step == 0
                &&& same_epoch_state(*old(self), *final(self))
            },
            !(old(self).role is Follower) ==> *final(self) == *old(self),
    {
        if self.role.is_follower() && self.step == 0 {
            self.round = self.round + 1;
        } else if self.role.is_follower() && self.step == 1 {
            self.round = self.round + 1;
            self.step = 0;
        }
    }
}

/// How the quorum accumulator treats one offered vote.  A vote for any
/// other epoch than the exact in-flight `(id, hash)` pair is logged and
/// discarded without effect.  A vote for the right epoch must carry a
/// signature — a missing one is the fatal `NoSignature` error.  A carried
/// signature is always appended to the evidence list; its voter weight is
/// added only when its index lies inside the roster snapshot, an
/// out-of-range index being logged and not counted.
pub open spec fn record_vote_rel(
    pre: BRaft,
    post: BRaft,
    epoch_id: u64,
    epoch_hash: u64,
    vote_sign: Option<VoteSign>,
    r: Result<(), Error>,
) -> bool {
    if epoch_id != pre.epoch_id || epoch_hash != pre.epoch_hash {
        post == pre && r is Ok
    } else {
        match vote_sign {
            None => post == pre && (r matches Err(Error::NoSignature)),
            Some(sign) => {
                &&& r is Ok
                &&& post.vote_signs@ == pre.vote_signs@.push(sign)
                &&& post.weight == pre.weight + vote_weight(sign, pre.voter_set@)
                &&& post.node_id == pre.node_id
                &&& post.role == pre.role
                &&& post.latest_epoch_id == pre.latest_epoch_id
                &&& post.epoch_id == pre.epoch_id
                &&& post.epoch_hash == pre.epoch_hash
                &&& post.round == pre.round
                &&& post.step == pre.step
                &&& post.total_weight == pre.total_weight
                &&& post.voter_set == pre.voter_set
            },
        }
    }
}

impl BRaft {
    /// Adopt the epoch the application proposed as the in-flight one and
    /// advance to the collection step.  Returns the unsigned
    /// `BroadcastPropose` announcement the driving loop must broadcast to
    /// all nodes.
    pub fn propose_epoch(&mut self, epoch_id: u64, epoch_hash: u64) -> (pkt: Packet)
        requires
            old(self).wf(),
        ensures
            final(self).wf(),
            final(self).epoch_id == epoch_id,
            final(self).epoch_hash == epoch_hash,
            final(self).step == 1,
            final(self).round == old(self).round,
            final(self).node_id == old(self).node_id,
            final(self).role == old(self).role,
            final(self).latest_epoch_id == old(self).latest_epoch_id,
            final(self).weight == old(self).weight,
            final(self).total_weight == old(self).total_weight,
            final(self).vote_signs@ == old(self).vote_signs@,
            final(self).voter_set == old(self).voter_set,
            pkt matches Packet::BroadcastPropose(p)
                && p.epoch_id == epoch_id
                && p.epoch_hash == epoch_hash
                && p.vote_sign is None,
    {
        self.epoch_id = epoch_id;
        self.epoch_hash = epoch_hash;
        self.step = 1;
        Packet::broadcast_propose_from_id_hash(epoch_id, epoch_hash)
    }

    /// Record one offered vote in the quorum accumulator, as
    /// [`record_vote_rel`] describes: exact-epoch votes only, a signature
    /// required, the weight counted only for a valid roster index, the
    /// signature retained either way.
    pub fn add_weight(&mut self, epoch_id: u64, epoch_hash: u64, vote_sign: Option<VoteSign>) -> (r: Result<
        (),
        Error,
    >)
        requires
            old(self).wf(),
        ensures
            final(self).wf(),
            record_vote_rel(*old(self), *final(self), epoch_id, epoch_hash, vote_sign, r),
    {
        if epoch_id == self.epoch_id && epoch_hash == self.epoch_hash {
            let sign = match vote_sign {
                Some(sign) => sign,
                None => {
                    return Err(Error::NoSignature);
                },
            };
            proof {
                lemma_valid_vote_weight_bound(self.vote_signs@, self.voter_set@);
                vstd::std_specs::vec::axiom_spec_len(&self.vote_signs);
            }
            if sign.idx < self.voter_set.len() as u64 {
                let voter_weight = self.voter_set[sign.idx as usize].weight;
                self.weight = self.weight + voter_weight as u128;
            } else {
                // index of packet out of bound: logged, weight not counted
            }
            proof {
                lemma_valid_vote_weight_push(self.vote_signs@, sign, self.voter_set@);
            }
            self.vote_signs.push(sign);
            Ok(())
        } else {
            // vote for another epoch: logged, discarded
            Ok(())
        }
    }

    /// Feed one packet received during the proposer's collection window to
    /// the quorum accumulator.  Both `ResponsePropose` and
    /// `BroadcastPropose` carry votes here; a `BroadcastCommit` is an error
    /// packet, logged and dropped.
    pub fn collect_propose_packet(&mut self, pkt: Packet) -> (r: Result<(), Error>)
        requires
            old(self).wf(),
        ensures
            final(self).wf(),
            pkt matches Packet::ResponsePropose(p) ==> record_vote_rel(
                *old(self),
                *final(self),
                p.epoch_id,
                p.epoch_hash,
                p.vote_sign,
                r,
            ),
            pkt matches Packet::BroadcastPropose(p) ==> record_vote_rel(
                *old(self),
                *final(self),
                p.epoch_id,
                p.epoch_hash,
                p.vote_sign,
                r,
            ),
            pkt is BroadcastCommit ==> *final(self) == *old(self) && r is Ok,
    {
        match pkt {
            Packet::ResponsePropose(rp) => self.add_weight(rp.epoch_id, rp.epoch_hash, rp.vote_sign),
            Packet::BroadcastPropose(rp) => self.add_weight(rp.epoch_id, rp.epoch_hash, rp.vote_sign),
            _ => {
                // error packet: logged, ignored
                Ok(())
            },
        }
    }

    /// Close the proposer's collection window and evaluate quorum — once,
    /// over the whole window.  Quorum is reached exactly when the
    /// accumulated valid-vote weight, doubled, exceeds the roster's total
    /// weight; in that case the collected evidence is returned as a
    /// `BroadcastCommit` for the driving loop to broadcast.  In both
    /// outcomes the step and round restart at 0, `latest_epoch_id` advances
    /// to the proposed epoch id, the evidence window is emptied, and the
    /// driving loop must invoke the application's commit hook for the
    /// epoch.
    pub fn collect_propose(&mut self) -> (sent: Option<Packet>)
        requires
            old(self).wf(),
        ensures
            final(self).wf(),
            sent is Some <==> quorum_reached(
                valid_vote_weight(old(self).vote_signs@, old(self).voter_set@),
                sum_voter_weights(old(self).voter_set@),
            ),
            sent matches Some(pkt) ==> pkt matches Packet::BroadcastCommit(c)
                && c.epoch_id == old(self).epoch_id
                && c.epoch_hash == old(self).epoch_hash
                && c.vote_signs@ == old(self).vote_signs@,
            final(self).step == 0,
            final(self).round == 0,
            final(self).latest_epoch_id == old(self).epoch_id,
            final(self).epoch_id == old(self).epoch_id,
            final(self).epoch_hash == old(self).epoch_hash,
            final(self).vote_signs@ == Seq::<VoteSign>::empty(),
            final(self).weight == 0,
            final(self).node_id == old(self).node_id,
            final(self).role == old(self).role,
            final(self).total_weight == old(self).total_weight,
            final(self).voter_set == old(self).voter_set,
    {
        let mut vote_signs: Vec<VoteSign> = Vec::new();
        core::mem::swap(&mut vote_signs, &mut self.vote_signs);

        proof {
            lemma_quorum_threshold(self.weight as int, self.total_weight as int);
        }
        let reached = self.weight > self.total_weight / 2;

        self.step = 0;
        self.round = 0;
        self.latest_epoch_id = self.epoch_id;
        self.weight = 0;

        if reached {
            Some(Packet::broadcast_commit_from_id_hash(self.epoch_id, self.epoch_hash, vote_signs))
        } else {
            None
        }
    }

    /// After every tick that left the node at step 0 of round 0 — a fresh
    /// attempt beginning — the role is recomputed for the current epoch
    /// hash and the quorum weight window is reset.  This is the sole place
    /// role rotation occurs, and it never happens mid-round.  `proposer` is
    /// the externally computed proposer id for the current epoch hash.  A
    /// fresh attempt begins with an empty evidence list, so the caller
    /// checks that the list is empty whenever the reset applies.
    pub fn refresh_role(&mut self, proposer: u64)
        requires
            old(self).wf(),
            old(self).step == 0 && old(self).round == 0 ==> old(self).vote_signs@.len() == 0,
        ensures
            final(self).wf(),
            old(self).step == 0 && old(self).round == 0 ==> {
                &&& final(self).role == spec_role(old(self).voter_set@, old(self).node_id, proposer)
                &&& final(self).weight == 0
                &&& final(self).node_id == old(self).node_id
                &&& final(self).latest_epoch_id == old(self).latest_epoch_id
                &&& final(self).epoch_id == old(self).epoch_id
                &&& final(self).epoch_hash == old(self).epoch_hash
                &&& final(self).round == old(self).round
                &&& final(self).step == old(self).step
                &&& final(self).total_weight == old(self).total_weight
                &&& final(self).vote_signs@ == old(self).vote_signs@
                &&& final(self).voter_set == old(self).voter_set
            },
            !(old(self).step == 0 && old(self).round == 0) ==> *final(self) == *old(self),
    {
        if self.step == 0 && self.round == 0 {
            let role = Self::compute_role(&self.voter_set, self.node_id, proposer);
            self.role = role;
            self.weight = 0;
        }
    }
}

/// The tracked epoch id after a whole sequence of commit or proposal
/// announcements has been offered, each accepted exactly when its id
/// strictly exceeds the id tracked at that moment.
pub open spec fn epoch_id_after(cur: u64, ids: Seq<u64>) -> u64
    decreases ids.len(),
{
    if ids.len() == 0 {
        cur
    } else {
        epoch_id_after(next_epoch_id(cur, ids[0]), ids.drop_first())
    }
}

/// Offering one announcement moves the tracked epoch id forward or not at
/// all, and moves it strictly exactly when the announced id exceeds the
/// tracked one.
pub proof fn lemma_epoch_strict_increase(cur: u64, epoch_id: u64)
    ensures
        next_epoch_id(cur, epoch_id) >= cur,
        next_epoch_id(cur, epoch_id) > cur <==> epoch_id > cur,
{
}

/// Offering the announcements one more at a time: the id after `ids + [x]`
/// is one acceptance step applied to the id after `ids`.
proof fn lemma_epoch_id_after_snoc(cur: u64, ids: Seq<u64>, x: u64)
    ensures
        epoch_id_after(cur, ids.push(x)) == next_epoch_id(epoch_id_after(cur, ids), x),
    decreases ids.len(),
{
    if ids.len() == 0 {
        assert(ids.push(x)[0] == x);
        assert(ids.push(x).drop_first() =~= Seq::<u64>::empty());
        assert(epoch_id_after(next_epoch_id(cur, x), Seq::<u64>::empty()) == next_epoch_id(cur, x));
        assert(epoch_id_after(cur, ids) == cur);
    } else {
        assert(ids.push(x)[0] == ids[0]);
        assert(ids.push(x).drop_first() =~= ids.drop_first().push(x));
        lemma_epoch_id_after_snoc(next_epoch_id(cur, ids[0]), ids.drop_first(), x);
    }
}

/// Over every sequence of offered commit and proposal announcements, the
/// tracked epoch id is non-decreasing: the id after any longer prefix is at
/// least the id after any shorter one.
pub proof fn lemma_epoch_monotonicity(cur: u64, ids: Seq<u64>, i: int, j: int)
    requires
        0 <= i <= j <= ids.len(),
    ensures
        cur <= epoch_id_after(cur, ids.take(i)),
        epoch_id_after(cur, ids.take(i)) <= epoch_id_after(cur, ids.take(j)),
    decreases j,
{
    if j == 0 {
        assert(ids.take(0) =~= Seq::<u64>::empty());
    } else {
        lemma_epoch_monotonicity(cur, ids, if i < j { i } else { i - 1 }, j - 1);
        assert(ids.take(j) =~= ids.take(j - 1).push(ids[j - 1]));
        lemma_epoch_id_after_snoc(cur, ids.take(j - 1), ids[j - 1]);
    }
}

/// Re-delivering an already-processed commit announcement is idempotent:
/// after a `BroadcastCommit` has been offered once, offering the same
/// announcement again leaves every state field unchanged, whether the
/// first delivery was accepted or itself already stale.
pub proof fn lemma_stale_rejection_idempotent(
    s0: BRaft,
    s1: BRaft,
    s2: BRaft,
    epoch_id: u64,
    epoch_hash: u64,
)
    requires
        accept_commit_rel(s0, s1, epoch_id, epoch_hash),
        accept_commit_rel(s1, s2, epoch_id, epoch_hash),
    ensures
        s2 == s1,
{
}

/// The executable majority test `weight > total / 2` agrees with the
/// doubled-weight rule `weight * 2 > total` on all non-negative values.
pub proof fn lemma_quorum_threshold(weight: int, total: int)
    requires
        weight >= 0,
        total >= 0,
    ensures
        quorum_reached(weight, total) <==> weight > total / 2,
{
    assert(quorum_reached(weight, total) <==> weight > total / 2) by (nonlinear_arith)
        requires
            weight >= 0,
            total >= 0,
    ;
}

/// Appending one vote sign adds exactly its [`vote_weight`] to the
/// valid-vote weight of the collection.
proof fn lemma_valid_vote_weight_push(signs: Seq<VoteSign>, sign: VoteSign, voters: Seq<Voter>)
    ensures
        valid_vote_weight(signs.push(sign), voters)
            == valid_vote_weight(signs, voters) + vote_weight(sign, voters),
{
    assert(signs.push(sign).drop_last() =~= signs);
    assert(signs.push(sign).last() == sign);
}

/// The valid-vote weight of a collection never exceeds one maximal voter
/// weight per recorded sign, so the accumulator cannot overflow.
proof fn lemma_valid_vote_weight_bound(signs: Seq<VoteSign>, voters: Seq<Voter>)
    ensures
        0 <= valid_vote_weight(signs, voters),
        valid_vote_weight(signs, voters) <= signs.len() * (u64::MAX as int),
    decreases signs.len(),
{
    if signs.len() > 0 {
        lemma_valid_vote_weight_bound(signs.drop_last(), voters);
    }
}

/// One unrolling step of [`sum_voter_weights`] along a prefix.
proof fn lemma_sum_take_step(voters: Seq<Voter>, i: int)
    requires
        0 <= i < voters.len(),
    ensures
        sum_voter_weights(voters.take(i + 1))
            == sum_voter_weights(voters.take(i)) + voters[i].weight,
{
    assert(voters.take(i + 1).drop_last() =~= voters.take(i));
    assert(voters.take(i + 1).last() == voters[i]);
}

} // verus!
