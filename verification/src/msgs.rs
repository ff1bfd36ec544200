//! The consensus wire messages, their epoch tags, and the structural checks
//! the epoch manager runs before a message reaches a processor.
//!
//! Signatures are checked by the safety collaborators outside this library;
//! here an event "verifies" when its author belongs to the current validator
//! set, the structural part of that check.

use vstd::prelude::*;

use crate::types::Author;
use crate::types::ValidatorVerifier;

verus! {

/// A proposed block for one round, tagged with the epoch it belongs to.
#[derive(Clone, Debug)]
pub struct ProposalMsg {
    pub epoch: u64,
    pub round: u64,
    pub proposer: Author,
    pub payload: Vec<u8>,
}

/// A vote on a proposal, tagged with the epoch it belongs to.
#[derive(Clone, Copy, PartialEq, Eq, Structural, Debug)]
pub struct VoteMsg {
    pub epoch: u64,
    pub round: u64,
    pub author: Author,
}

/// A peer's view of its own progress, offered so that a lagging node can
/// catch up.
#[derive(Clone, Copy, PartialEq, Eq, Structural, Debug)]
pub struct SyncInfo {
    pub epoch: u64,
    pub highest_certified_round: u64,
}

/// A signed commitment to a committed state root and the epoch it concludes.
#[derive(Clone, Copy, PartialEq, Eq, Structural, Debug)]
pub struct LedgerInfo {
    pub epoch: u64,
    pub round: u64,
}

/// A sequence of ledger-info records linking consecutive epochs, verifiable
/// against the current epoch's validator set.
#[derive(Clone, Debug)]
pub struct EpochChangeProof {
    pub ledger_infos: Vec<LedgerInfo>,
}

/// A request for the epoch-change proofs covering `[start_epoch, end_epoch)`.
#[derive(Clone, Copy, PartialEq, Eq, Structural, Debug)]
pub struct EpochRetrievalRequest {
    pub start_epoch: u64,
    pub end_epoch: u64,
}

/// A request to walk blocks out of the local block store.
#[derive(Clone, Copy, PartialEq, Eq, Structural, Debug)]
pub struct BlockRetrievalRequest {
    pub start_round: u64,
    pub num_blocks: u64,
}

/// The blocks served in answer to a retrieval request, opaque to this layer.
#[derive(Clone, Debug)]
pub struct BlockRetrievalResponse {
    pub payload: Vec<u8>,
}

/// The consensus message variants on the wire.
#[derive(Clone, Debug)]
pub enum ConsensusMsg {
    ProposalMsg(ProposalMsg),
    VoteMsg(VoteMsg),
    SyncInfo(SyncInfo),
    EpochChangeProof(EpochChangeProof),
    EpochRetrievalRequest(EpochRetrievalRequest),
    BlockRetrievalRequest(BlockRetrievalRequest),
    BlockRetrievalResponse(BlockRetrievalResponse),
}

/// A proposal, vote or sync-info whose author has not yet been checked
/// against the validator set.
#[derive(Clone, Debug)]
pub enum UnverifiedEvent {
    ProposalMsg(ProposalMsg),
    VoteMsg(VoteMsg),
    SyncInfo(SyncInfo),
}

/// An event whose author was found in the current validator set.
#[derive(Clone, Debug)]
pub enum VerifiedEvent {
    ProposalMsg(ProposalMsg),
    VoteMsg(VoteMsg),
    SyncInfo(SyncInfo),
}

impl UnverifiedEvent {
    /// The epoch the event is tagged with.
    pub open spec fn spec_epoch(self) -> u64 {
        match self {
            UnverifiedEvent::ProposalMsg(p) => p.epoch,
            UnverifiedEvent::VoteMsg(v) => v.epoch,
            UnverifiedEvent::SyncInfo(s) => s.epoch,
        }
    }

    pub fn epoch(&self) -> (e: u64)
        ensures
            e == self.spec_epoch(),
    {
        match self {
            UnverifiedEvent::ProposalMsg(p) => p.epoch,
            UnverifiedEvent::VoteMsg(v) => v.epoch,
            UnverifiedEvent::SyncInfo(s) => s.epoch,
        }
    }

    /// Whether the event's author belongs to `verifier`.  A sync-info
    /// carries aggregated certificates rather than a single author, so it
    /// has nothing for this structural check to refuse.
    pub open spec fn author_known(self, verifier: ValidatorVerifier) -> bool {
        match self {
            UnverifiedEvent::ProposalMsg(p) => verifier.spec_contains(p.proposer),
            UnverifiedEvent::VoteMsg(v) => verifier.spec_contains(v.author),
            UnverifiedEvent::SyncInfo(_) => true,
        }
    }

    /// The same event, once verified.
    pub open spec fn spec_verified(self) -> VerifiedEvent {
        match self {
            UnverifiedEvent::ProposalMsg(p) => VerifiedEvent::ProposalMsg(p),
            UnverifiedEvent::VoteMsg(v) => VerifiedEvent::VoteMsg(v),
            UnverifiedEvent::SyncInfo(s) => VerifiedEvent::SyncInfo(s),
        }
    }

    /// Checks the event's author against the validator set.  A failure must
    /// not reach a processor.
    pub fn verify(self, verifier: &ValidatorVerifier) -> (r: Result<VerifiedEvent, ()>)
        ensures
            r matches Ok(ev) ==> self.author_known(*verifier) && ev == self.spec_verified(),
            r is Err <==> !self.author_known(*verifier),
    {
        let ok = match &self {
            UnverifiedEvent::ProposalMsg(p) => verifier.contains(&p.proposer),
            UnverifiedEvent::VoteMsg(v) => verifier.contains(&v.author),
            UnverifiedEvent::SyncInfo(_) => true,
        };
        if !ok {
            return Err(());
        }
        match self {
            UnverifiedEvent::ProposalMsg(p) => Ok(VerifiedEvent::ProposalMsg(p)),
            UnverifiedEvent::VoteMsg(v) => Ok(VerifiedEvent::VoteMsg(v)),
            UnverifiedEvent::SyncInfo(s) => Ok(VerifiedEvent::SyncInfo(s)),
        }
    }
}

impl VerifiedEvent {
    pub open spec fn spec_epoch(self) -> u64 {
        match self {
            VerifiedEvent::ProposalMsg(p) => p.epoch,
            VerifiedEvent::VoteMsg(v) => v.epoch,
            VerifiedEvent::SyncInfo(s) => s.epoch,
        }
    }

    pub fn epoch(&self) -> (e: u64)
        ensures
            e == self.spec_epoch(),
    {
        match self {
            VerifiedEvent::ProposalMsg(p) => p.epoch,
            VerifiedEvent::VoteMsg(v) => v.epoch,
            VerifiedEvent::SyncInfo(s) => s.epoch,
        }
    }
}

impl EpochChangeProof {
    /// A proof is shaped well for local epoch `e` when it is non-empty,
    /// starts at `e`, links consecutive epochs, and concludes an epoch whose
    /// successor still fits in the epoch counter.
    pub open spec fn spec_valid_for(self, e: u64) -> bool {
        &&& self.ledger_infos@.len() > 0
        &&& self.ledger_infos@[0].epoch == e
        &&& forall|i: int|
            1 <= i < self.ledger_infos@.len() ==> #[trigger] self.ledger_infos@[i].epoch
                == self.ledger_infos@[i - 1].epoch + 1
        &&& self.ledger_infos@.last().epoch < u64::MAX
    }

    /// The epoch the proof would move a node at its first epoch to: one past
    /// the last epoch it concludes.
    pub open spec fn spec_target_epoch(self) -> int {
        self.ledger_infos@.last().epoch + 1
    }

    /// The epoch of the first record, used for epoch gating.
    pub fn first_epoch(&self) -> (r: Result<u64, ()>)
        ensures
            r matches Ok(e) ==> self.ledger_infos@.len() > 0 && e == self.ledger_infos@[0].epoch,
            r is Err <==> self.ledger_infos@.len() == 0,
    {
        if self.ledger_infos.len() == 0 {
            Err(())
        } else {
            Ok(self.ledger_infos[0].epoch)
        }
    }

    /// Structural verification against local epoch `e`; on success returns
    /// the epoch the proof moves the node to.
    pub fn verify(&self, e: u64) -> (r: Result<u64, ()>)
        ensures
            r matches Ok(t) ==> self.spec_valid_for(e) && t == self.spec_target_epoch(),
            r is Err <==> !self.spec_valid_for(e),
    {
        if self.ledger_infos.len() == 0 {
            return Err(());
        }
        if self.ledger_infos[0].epoch != e {
            return Err(());
        }
        let mut i: usize = 1;
        while i < self.ledger_infos.len()
            invariant
                1 <= i <= self.ledger_infos@.len(),
                forall|j: int|
                    1 <= j < i ==> #[trigger] self.ledger_infos@[j].epoch == self.ledger_infos@[
                        j - 1
                    ].epoch + 1,
            decreases self.ledger_infos@.len() - i,
        {
            let prev = self.ledger_infos[i - 1].epoch;
            if prev == u64::MAX || self.ledger_infos[i].epoch != prev + 1 {
                proof {
                    assert(self.ledger_infos@[i as int].epoch != self.ledger_infos@[i as int
                        - 1].epoch + 1);
                }
                return Err(());
            }
            i += 1;
        }
        let last = self.ledger_infos[self.ledger_infos.len() - 1].epoch;
        if last == u64::MAX {
            return Err(());
        }
        Ok(last + 1)
    }
}

} // verus!
