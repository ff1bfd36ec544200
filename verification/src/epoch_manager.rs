//! The top-level actor of the replica: gates inbound messages by epoch,
//! owns the per-epoch processor, and decides every epoch transition.
//!
//! The surrounding event loop reads channels, storage and the network and
//! performs the actions these functions return; every decision is made
//! here, on plain values.

use vstd::prelude::*;

use crate::election::ProposerElection;
use crate::msgs::BlockRetrievalRequest;
use crate::msgs::ConsensusMsg;
use crate::msgs::EpochChangeProof;
use crate::msgs::EpochRetrievalRequest;
use crate::msgs::UnverifiedEvent;
use crate::msgs::VerifiedEvent;
use crate::msgs::VoteMsg;
use crate::round_state::RoundState;
use crate::round_state::TimeoutOutcome;
use crate::round_state::base_in_range;
use crate::round_state::now_in_range;
use crate::round_state::spec_backoff_ms;
use crate::types::Author;
use crate::types::EpochState;
use crate::types::ValidatorVerifier;

verus! {

/// Which proposer election the configuration asks for.
#[derive(Clone, Copy, PartialEq, Eq, Structural, Debug)]
pub enum ProposerType {
    RotatingProposer,
    FixedProposer,
    LeaderReputation { active_weights: u64, inactive_weights: u64 },
}

/// The recognized consensus configuration options.
#[derive(Clone, Copy, PartialEq, Eq, Structural, Debug)]
pub struct ConsensusConfig {
    /// Base for the round-timeout exponential backoff.
    pub round_initial_timeout_ms: u64,
    /// Upper bound on payload per proposal.
    pub max_block_size: u64,
    /// Block store retention.
    pub max_pruned_blocks_in_mem: u64,
    /// Rotating proposer stride.
    pub contiguous_rounds: u32,
    pub proposer_type: ProposerType,
}

impl ConsensusConfig {
    pub open spec fn wf(self) -> bool {
        &&& base_in_range(self.round_initial_timeout_ms)
        &&& self.contiguous_rounds > 0
    }
}

/// The on-chain configuration delivered over the reconfiguration channel:
/// the new epoch and its validator set, already in canonical order.
#[derive(Clone, Debug)]
pub struct OnChainConfigPayload {
    pub epoch: u64,
    pub validators: ValidatorVerifier,
}

/// Everything needed to reconstruct the in-memory block store, as far as
/// this layer reads it: where the root stands and the last vote to resend.
#[derive(Clone, Copy, PartialEq, Eq, Structural, Debug)]
pub struct RecoveryData {
    pub root_round: u64,
    pub last_vote: Option<VoteMsg>,
}

/// The weaker recovery variant: only a committed round is known, and the
/// block store cannot be rebuilt without peer help.
#[derive(Clone, Copy, PartialEq, Eq, Structural, Debug)]
pub struct LedgerRecoveryData {
    pub commit_round: u64,
}

impl LedgerRecoveryData {
    pub fn commit_round(&self) -> (r: u64)
        ensures
            r == self.commit_round,
    {
        self.commit_round
    }
}

/// What the persistent liveness storage yielded at processor start.
#[derive(Clone, Copy, PartialEq, Eq, Structural, Debug)]
pub enum LivenessStorageData {
    RecoveryData(RecoveryData),
    LedgerRecoveryData(LedgerRecoveryData),
}

impl LivenessStorageData {
    /// The recovery data this storage result is known to carry.  Callers
    /// that cannot rule out the ledger-only variant must match instead; this
    /// accessor is for paths where anything else is a programming error.
    pub fn expect_recovery_data(self, _msg: &str) -> (r: RecoveryData)
        requires
            self is RecoveryData,
        ensures
            self == LivenessStorageData::RecoveryData(r),
    {
        match self {
            LivenessStorageData::RecoveryData(data) => data,
            // dead arm under the precondition
            LivenessStorageData::LedgerRecoveryData(_) => RecoveryData {
                root_round: 0,
                last_vote: None,
            },
        }
    }
}

/// The normal per-round processor shell: the epoch it serves, its round
/// timing, and its proposer election.  Proposal and vote handling extend
/// the block store through collaborators outside this library.
#[derive(Clone, Debug)]
pub struct RoundManager {
    pub epoch_state: EpochState,
    pub round_state: RoundState,
    pub proposer_election: ProposerElection,
}

/// The transient processor used while the local block store cannot be
/// rebuilt: it only forwards proposals and votes to peers-assisted recovery.
#[derive(Clone, Debug)]
pub struct RecoveryManager {
    pub epoch_state: EpochState,
    pub last_committed_round: u64,
}

/// The one active processor: normal round processing or startup recovery.
#[derive(Clone, Debug)]
pub enum RoundProcessor {
    Recovery(RecoveryManager),
    Normal(RoundManager),
}

impl RoundProcessor {
    pub open spec fn spec_epoch_state(self) -> EpochState {
        match self {
            RoundProcessor::Recovery(p) => p.epoch_state,
            RoundProcessor::Normal(p) => p.epoch_state,
        }
    }

    pub open spec fn wf(self) -> bool {
        match self {
            RoundProcessor::Recovery(p) => p.epoch_state.wf(),
            RoundProcessor::Normal(p) => p.epoch_state.wf() && p.round_state.wf()
                && p.proposer_election.wf(),
        }
    }
}

/// An active processor is Normal exactly when it is not Recovery: the
/// manager never holds both.
pub proof fn lemma_processor_exclusive(p: RoundProcessor)
    ensures
        (p is Normal) <==> !(p is Recovery),
{
}

/// The error kinds the manager surfaces; the loop logs them and continues.
#[derive(Clone, Copy, PartialEq, Eq, Structural, Debug)]
pub enum ConsensusError {
    /// No processor is active yet.
    NotStarted,
    /// A signature, epoch or field check failed; nothing was mutated.
    InvalidMessage,
    /// Well-formed but not expected over this channel.
    UnexpectedMessage,
    /// Only proposals and votes reach a recovering processor.
    UnexpectedDuringStartup,
    /// The peer asked for epochs beyond what is held locally.
    InvalidRequest,
}

/// The action a decision asks the surrounding loop to perform.
#[derive(Clone, Debug)]
pub enum MsgOutput {
    /// Hand the verified event to the active normal processor.
    DispatchNormal(VerifiedEvent),
    /// Hand the verified event to the active recovery processor.
    DispatchRecovery(VerifiedEvent),
    /// Read the epoch-change proofs covering `[start_epoch, end_epoch)`
    /// from storage and send them to `to`.
    SendEpochChangeProof { to: Author, start_epoch: u64, end_epoch: u64 },
    /// Ask `to` for the proofs covering `[start_epoch, end_epoch)`.
    SendEpochRetrievalRequest { to: Author, start_epoch: u64, end_epoch: u64 },
    /// Drive the state computer to the ledger state concluding
    /// `target_epoch - 1`; the reconfiguration channel then delivers the
    /// new epoch's payload.
    SyncTo { target_epoch: u64 },
    /// The same target was already handed to the state computer; nothing
    /// more to do.
    SyncAlreadyRequested { target_epoch: u64 },
    /// Serve the block walk from the local store.
    DispatchBlockRetrieval(BlockRetrievalRequest),
}

/// Multiplexes a validator's participation across reconfiguration epochs:
/// constructed with no processor, it starts one per reconfiguration payload
/// and replaces it on every later one.
#[derive(Clone, Debug)]
pub struct EpochManager {
    pub author: Author,
    pub config: ConsensusConfig,
    pub processor: Option<RoundProcessor>,
    /// The highest epoch for which a state-sync action was already emitted,
    /// so that a replayed proof does not drive the state computer twice.
    pub sync_requested_to: Option<u64>,
}

impl EpochManager {
    pub open spec fn wf(self) -> bool {
        &&& self.config.wf()
        &&& self.processor matches Some(p) ==> p.wf()
    }

    pub open spec fn spec_started(self) -> bool {
        self.processor is Some
    }

    pub open spec fn spec_processor(self) -> RoundProcessor
        recommends
            self.spec_started(),
    {
        self.processor->0
    }

    pub open spec fn spec_epoch(self) -> u64
        recommends
            self.spec_started(),
    {
        self.spec_processor().spec_epoch_state().epoch
    }

    pub open spec fn spec_verifier(self) -> ValidatorVerifier
        recommends
            self.spec_started(),
    {
        self.spec_processor().spec_epoch_state().verifier
    }

    /// Whether a sync action for target epoch `t` may still be emitted.
    pub open spec fn spec_allows_sync(self, t: int) -> bool {
        match self.sync_requested_to {
            None => true,
            Some(s) => t > s,
        }
    }

    /// Constructed with no processor; the first reconfiguration payload
    /// starts one.
    pub fn new(author: Author, config: ConsensusConfig) -> (r: EpochManager)
        requires
            config.wf(),
        ensures
            r.wf(),
            r.author == author,
            r.config == config,
            r.processor is None,
            r.sync_requested_to is None,
    {
        EpochManager { author, config, processor: None, sync_requested_to: None }
    }

    /// The current epoch, once a processor is active.
    pub fn epoch(&self) -> (r: Option<u64>)
        ensures
            match r {
                Some(e) => self.spec_started() && e == self.spec_epoch(),
                None => !self.spec_started(),
            },
    {
        match &self.processor {
            Some(RoundProcessor::Normal(p)) => Some(p.epoch_state.epoch),
            Some(RoundProcessor::Recovery(p)) => Some(p.epoch_state.epoch),
            None => None,
        }
    }

    /// The epoch state of the active processor.
    pub fn epoch_state(&self) -> (r: Option<&EpochState>)
        ensures
            match r {
                Some(es) => self.spec_started() && *es == self.spec_processor().spec_epoch_state(),
                None => !self.spec_started(),
            },
    {
        match &self.processor {
            Some(RoundProcessor::Normal(p)) => Some(&p.epoch_state),
            Some(RoundProcessor::Recovery(p)) => Some(&p.epoch_state),
            None => None,
        }
    }

    fn current_epoch(&self) -> (e: u64)
        requires
            self.spec_started(),
        ensures
            e == self.spec_epoch(),
    {
        match &self.processor {
            Some(RoundProcessor::Normal(p)) => p.epoch_state.epoch,
            Some(RoundProcessor::Recovery(p)) => p.epoch_state.epoch,
            None => 0,
        }
    }

    /// What the created election must look like for `config` over the
    /// canonical ordering of `verifier`.
    pub open spec fn spec_election_matches(
        config: ConsensusConfig,
        verifier: ValidatorVerifier,
        e: ProposerElection,
    ) -> bool {
        match config.proposer_type {
            ProposerType::RotatingProposer => e matches ProposerElection::RotatingProposer {
                proposers,
                contiguous_rounds,
            } && proposers@ == verifier.spec_authors() && contiguous_rounds
                == config.contiguous_rounds,
            ProposerType::FixedProposer => e matches ProposerElection::RotatingProposer {
                proposers,
                contiguous_rounds,
            } && proposers@ == seq![verifier.spec_authors()[0]] && contiguous_rounds
                == config.contiguous_rounds,
            ProposerType::LeaderReputation { active_weights, inactive_weights } => e
                matches ProposerElection::LeaderReputation {
                proposers,
                active_weights: aw,
                inactive_weights: iw,
            } && proposers@ == verifier.spec_authors() && aw == active_weights && iw
                == inactive_weights,
        }
    }

    /// Builds the proposer election the configuration asks for.  A fixed
    /// proposer deterministically keeps the first author of the canonical
    /// ordering, rotating over a singleton set.
    fn create_proposer_election(&self, epoch_state: &EpochState) -> (e: ProposerElection)
        requires
            self.config.wf(),
            epoch_state.verifier.spec_authors().len() > 0,
        ensures
            Self::spec_election_matches(self.config, epoch_state.verifier, e),
            e.wf(),
    {
        let proposers = copy_authors(epoch_state.verifier.ordered_authors());
        match self.config.proposer_type {
            ProposerType::RotatingProposer => ProposerElection::RotatingProposer {
                proposers,
                contiguous_rounds: self.config.contiguous_rounds,
            },
            ProposerType::FixedProposer => {
                let first = proposers[0];
                let mut one: Vec<Author> = Vec::new();
                one.push(first);
                proof {
                    assert(one@ =~= seq![epoch_state.verifier.spec_authors()[0]]);
                }
                ProposerElection::RotatingProposer {
                    proposers: one,
                    contiguous_rounds: self.config.contiguous_rounds,
                }
            },
            ProposerType::LeaderReputation { active_weights, inactive_weights } => {
                ProposerElection::LeaderReputation { proposers, active_weights, inactive_weights }
            },
        }
    }

    /// What an installed normal processor looks like.
    pub open spec fn spec_normal_installed(
        self,
        epoch_state: EpochState,
        root_round: u64,
        now_ms: u64,
    ) -> bool {
        &&& self.processor matches Some(RoundProcessor::Normal(rm))
        &&& self.spec_processor()->Normal_0.epoch_state == epoch_state
        &&& self.spec_processor()->Normal_0.round_state.round == root_round
        &&& self.spec_processor()->Normal_0.round_state.timeouts == 0
        &&& self.spec_processor()->Normal_0.round_state.base_timeout_ms
            == self.config.round_initial_timeout_ms
        &&& self.spec_processor()->Normal_0.round_state.deadline_ms == now_ms + spec_backoff_ms(
            self.config.round_initial_timeout_ms,
            0,
        )
        &&& Self::spec_election_matches(
            self.config,
            epoch_state.verifier,
            self.spec_processor()->Normal_0.proposer_election,
        )
    }

    /// Installs a normal round processor for `epoch_state`, releasing any
    /// previous processor first.  Entered both from `start_processor` and
    /// when a recovering session is promoted in place.
    pub fn start_round_manager(
        &mut self,
        recovery_data: RecoveryData,
        epoch_state: EpochState,
        now_ms: u64,
    )
        requires
            old(self).wf(),
            epoch_state.wf(),
            epoch_state.verifier.spec_authors().len() > 0,
            now_in_range(now_ms),
        ensures
            final(self).wf(),
            final(self).author == old(self).author,
            final(self).config == old(self).config,
            final(self).sync_requested_to == old(self).sync_requested_to,
            final(self).spec_normal_installed(epoch_state, recovery_data.root_round, now_ms),
    {
        // Release the previous processor, and with it the safety-rules
        // client, before its successor exists.
        self.processor = None;
        let proposer_election = self.create_proposer_election(&epoch_state);
        let round_state = RoundState::new(
            self.config.round_initial_timeout_ms,
            recovery_data.root_round,
            now_ms,
        );
        self.processor = Some(
            RoundProcessor::Normal(RoundManager { epoch_state, round_state, proposer_election }),
        );
    }

    /// Installs a recovery processor: the local block store cannot be
    /// rebuilt, so proposals and votes are used to sync up with peers.
    pub fn start_recovery_manager(
        &mut self,
        ledger_recovery_data: LedgerRecoveryData,
        epoch_state: EpochState,
    )
        requires
            old(self).wf(),
            epoch_state.wf(),
        ensures
            final(self).wf(),
            final(self).author == old(self).author,
            final(self).config == old(self).config,
            final(self).sync_requested_to == old(self).sync_requested_to,
            final(self).processor == Some(
                RoundProcessor::Recovery(
                    RecoveryManager {
                        epoch_state,
                        last_committed_round: ledger_recovery_data.commit_round,
                    },
                ),
            ),
    {
        let last_committed_round = ledger_recovery_data.commit_round();
        self.processor = Some(
            RoundProcessor::Recovery(RecoveryManager { epoch_state, last_committed_round }),
        );
    }

    /// Consumes a reconfiguration payload: builds the epoch state and, from
    /// what storage yielded, spawns the normal or the recovery processor.
    /// After this call exactly one processor is active.
    pub fn start_processor(
        &mut self,
        payload: OnChainConfigPayload,
        storage_data: LivenessStorageData,
        now_ms: u64,
    )
        requires
            old(self).wf(),
            payload.validators.wf(),
            payload.validators.spec_authors().len() > 0,
            now_in_range(now_ms),
        ensures
            final(self).wf(),
            final(self).author == old(self).author,
            final(self).config == old(self).config,
            final(self).sync_requested_to == old(self).sync_requested_to,
            final(self).spec_started(),
            final(self).spec_epoch() == payload.epoch,
            final(self).spec_verifier() == payload.validators,
            storage_data matches LivenessStorageData::RecoveryData(d)
                ==> final(self).spec_normal_installed(
                EpochState { epoch: payload.epoch, verifier: payload.validators },
                d.root_round,
                now_ms,
            ),
            storage_data matches LivenessStorageData::LedgerRecoveryData(l)
                ==> final(self).processor == Some(
                RoundProcessor::Recovery(
                    RecoveryManager {
                        epoch_state: EpochState {
                            epoch: payload.epoch,
                            verifier: payload.validators,
                        },
                        last_committed_round: l.commit_round,
                    },
                ),
            ),
    {
        let epoch_state = EpochState { epoch: payload.epoch, verifier: payload.validators };
        match storage_data {
            LivenessStorageData::RecoveryData(initial_data) => {
                self.start_round_manager(initial_data, epoch_state, now_ms);
            },
            LivenessStorageData::LedgerRecoveryData(ledger_recovery_data) => {
                self.start_recovery_manager(ledger_recovery_data, epoch_state);
            },
        }
    }
}

impl EpochManager {
    /// Nothing but the sync bookkeeping differs between `pre` and `post`.
    pub open spec fn spec_same_but_sync(pre: EpochManager, post: EpochManager) -> bool {
        &&& post.author == pre.author
        &&& post.config == pre.config
        &&& post.processor == pre.processor
    }

    /// The outcome owed for a message tagged with an epoch other than the
    /// local one: help a lagging peer with a proof, or ask a leading peer
    /// for one.
    pub open spec fn spec_different_epoch_outcome(
        pre: EpochManager,
        post: EpochManager,
        peer_id: Author,
        different_epoch: u64,
        r: Result<MsgOutput, ConsensusError>,
    ) -> bool
        recommends
            pre.spec_started(),
            different_epoch != pre.spec_epoch(),
    {
        let e = pre.spec_epoch();
        if different_epoch < e {
            r == Ok::<MsgOutput, ConsensusError>(
                MsgOutput::SendEpochChangeProof {
                    to: peer_id,
                    start_epoch: different_epoch,
                    end_epoch: e,
                },
            ) && post == pre
        } else {
            r == Ok::<MsgOutput, ConsensusError>(
                MsgOutput::SendEpochRetrievalRequest {
                    to: peer_id,
                    start_epoch: e,
                    end_epoch: different_epoch,
                },
            ) && post == pre
        }
    }

    /// The outcome owed for a proposal, vote or sync-info.
    pub open spec fn spec_event_outcome(
        pre: EpochManager,
        post: EpochManager,
        peer_id: Author,
        event: UnverifiedEvent,
        r: Result<MsgOutput, ConsensusError>,
    ) -> bool
        recommends
            pre.spec_started(),
    {
        let e = pre.spec_epoch();
        if event.spec_epoch() == e {
            if event.author_known(pre.spec_verifier()) {
                match pre.spec_processor() {
                    RoundProcessor::Normal(_) => r == Ok::<MsgOutput, ConsensusError>(
                        MsgOutput::DispatchNormal(event.spec_verified()),
                    ) && post == pre,
                    RoundProcessor::Recovery(_) => if !(event is SyncInfo) {
                        r == Ok::<MsgOutput, ConsensusError>(
                            MsgOutput::DispatchRecovery(event.spec_verified()),
                        ) && post == pre
                    } else {
                        r == Err::<MsgOutput, ConsensusError>(
                            ConsensusError::UnexpectedDuringStartup,
                        ) && post == pre
                    },
                }
            } else {
                r == Err::<MsgOutput, ConsensusError>(ConsensusError::InvalidMessage) && post
                    == pre
            }
        } else {
            Self::spec_different_epoch_outcome(pre, post, peer_id, event.spec_epoch(), r)
        }
    }

    /// The outcome owed for an epoch-change proof whose first record names
    /// the local epoch: at most one sync call per target epoch.
    pub open spec fn spec_sync_outcome(
        pre: EpochManager,
        post: EpochManager,
        change_proof: EpochChangeProof,
        r: Result<MsgOutput, ConsensusError>,
    ) -> bool
        recommends
            pre.spec_started(),
    {
        if change_proof.spec_valid_for(pre.spec_epoch()) {
            let t = change_proof.spec_target_epoch();
            if pre.spec_allows_sync(t) {
                &&& r == Ok::<MsgOutput, ConsensusError>(
                    MsgOutput::SyncTo { target_epoch: t as u64 },
                )
                &&& Self::spec_same_but_sync(pre, post)
                &&& post.sync_requested_to == Some(t as u64)
            } else {
                r == Ok::<MsgOutput, ConsensusError>(
                    MsgOutput::SyncAlreadyRequested { target_epoch: t as u64 },
                ) && post == pre
            }
        } else {
            r == Err::<MsgOutput, ConsensusError>(ConsensusError::InvalidMessage) && post == pre
        }
    }

    /// The outcome owed for an epoch-change proof, whatever epoch it names.
    pub open spec fn spec_proof_outcome(
        pre: EpochManager,
        post: EpochManager,
        peer_id: Author,
        change_proof: EpochChangeProof,
        r: Result<MsgOutput, ConsensusError>,
    ) -> bool
        recommends
            pre.spec_started(),
    {
        if change_proof.ledger_infos@.len() == 0 {
            r == Err::<MsgOutput, ConsensusError>(ConsensusError::InvalidMessage) && post == pre
        } else {
            let first = change_proof.ledger_infos@[0].epoch;
            if first == pre.spec_epoch() {
                Self::spec_sync_outcome(pre, post, change_proof, r)
            } else {
                Self::spec_different_epoch_outcome(pre, post, peer_id, first, r)
            }
        }
    }

    /// The epoch gate: what `process_message` owes for every message kind.
    pub open spec fn spec_message_outcome(
        pre: EpochManager,
        post: EpochManager,
        peer_id: Author,
        msg: ConsensusMsg,
        r: Result<MsgOutput, ConsensusError>,
    ) -> bool
        recommends
            pre.spec_started(),
    {
        match msg {
            ConsensusMsg::ProposalMsg(p) => Self::spec_event_outcome(
                pre,
                post,
                peer_id,
                UnverifiedEvent::ProposalMsg(p),
                r,
            ),
            ConsensusMsg::VoteMsg(v) => Self::spec_event_outcome(
                pre,
                post,
                peer_id,
                UnverifiedEvent::VoteMsg(v),
                r,
            ),
            ConsensusMsg::SyncInfo(s) => Self::spec_event_outcome(
                pre,
                post,
                peer_id,
                UnverifiedEvent::SyncInfo(s),
                r,
            ),
            ConsensusMsg::EpochChangeProof(p) => Self::spec_proof_outcome(
                pre,
                post,
                peer_id,
                p,
                r,
            ),
            ConsensusMsg::EpochRetrievalRequest(req) => if req.end_epoch <= pre.spec_epoch() {
                r == Ok::<MsgOutput, ConsensusError>(
                    MsgOutput::SendEpochChangeProof {
                        to: peer_id,
                        start_epoch: req.start_epoch,
                        end_epoch: req.end_epoch,
                    },
                ) && post == pre
            } else {
                r == Err::<MsgOutput, ConsensusError>(ConsensusError::InvalidRequest) && post
                    == pre
            },
            ConsensusMsg::BlockRetrievalRequest(_) => r == Err::<MsgOutput, ConsensusError>(
                ConsensusError::UnexpectedMessage,
            ) && post == pre,
            ConsensusMsg::BlockRetrievalResponse(_) => r == Err::<MsgOutput, ConsensusError>(
                ConsensusError::UnexpectedMessage,
            ) && post == pre,
        }
    }

    /// Serves an epoch retrieval: the loop reads the proofs covering
    /// `[start_epoch, end_epoch)` from storage and sends them to the peer.
    /// The bound `end_epoch <= local epoch` was checked by the caller.
    fn process_epoch_retrieval(&self, request: EpochRetrievalRequest, peer_id: Author) -> (r:
        Result<MsgOutput, ConsensusError>)
        requires
            self.spec_started(),
        ensures
            r == Ok::<MsgOutput, ConsensusError>(
                MsgOutput::SendEpochChangeProof {
                    to: peer_id,
                    start_epoch: request.start_epoch,
                    end_epoch: request.end_epoch,
                },
            ),
    {
        Ok(
            MsgOutput::SendEpochChangeProof {
                to: peer_id,
                start_epoch: request.start_epoch,
                end_epoch: request.end_epoch,
            },
        )
    }

    /// A message from another epoch: help the peer forward with a proof, or
    /// ask it for one.
    fn process_different_epoch(&self, different_epoch: u64, peer_id: Author) -> (r: Result<
        MsgOutput,
        ConsensusError,
    >)
        requires
            self.spec_started(),
            different_epoch != self.spec_epoch(),
        ensures
            Self::spec_different_epoch_outcome(*self, *self, peer_id, different_epoch, r),
    {
        let e = self.current_epoch();
        if different_epoch < e {
            // We help nodes that are on a lower epoch than us.
            self.process_epoch_retrieval(
                EpochRetrievalRequest { start_epoch: different_epoch, end_epoch: e },
                peer_id,
            )
        } else {
            // We request a proof to join the higher epoch.
            Ok(
                MsgOutput::SendEpochRetrievalRequest {
                    to: peer_id,
                    start_epoch: e,
                    end_epoch: different_epoch,
                },
            )
        }
    }

    /// A proof starting at the local epoch: verify it and drive the state
    /// computer once per target.  The state computer delivers the resulting
    /// configuration through the reconfiguration channel, so the manager
    /// never installs a new epoch state here.
    fn start_new_epoch(&mut self, change_proof: &EpochChangeProof) -> (r: Result<
        MsgOutput,
        ConsensusError,
    >)
        requires
            old(self).wf(),
            old(self).spec_started(),
        ensures
            final(self).wf(),
            Self::spec_sync_outcome(*old(self), *final(self), *change_proof, r),
    {
        let e = self.current_epoch();
        match change_proof.verify(e) {
            Err(_) => Err(ConsensusError::InvalidMessage),
            Ok(target_epoch) => {
                let allowed = match self.sync_requested_to {
                    None => true,
                    Some(s) => target_epoch > s,
                };
                if allowed {
                    self.sync_requested_to = Some(target_epoch);
                    Ok(MsgOutput::SyncTo { target_epoch })
                } else {
                    Ok(MsgOutput::SyncAlreadyRequested { target_epoch })
                }
            },
        }
    }

    /// Routes a verified event to the active processor.  A recovering
    /// processor accepts only proposals and votes.
    fn process_event(&self, event: VerifiedEvent) -> (r: Result<MsgOutput, ConsensusError>)
        requires
            self.spec_started(),
        ensures
            self.spec_processor() is Normal ==> r == Ok::<MsgOutput, ConsensusError>(
                MsgOutput::DispatchNormal(event),
            ),
            self.spec_processor() is Recovery && !(event is SyncInfo) ==> r == Ok::<
                MsgOutput,
                ConsensusError,
            >(MsgOutput::DispatchRecovery(event)),
            self.spec_processor() is Recovery && event is SyncInfo ==> r == Err::<
                MsgOutput,
                ConsensusError,
            >(ConsensusError::UnexpectedDuringStartup),
    {
        match &self.processor {
            Some(RoundProcessor::Normal(_)) => Ok(MsgOutput::DispatchNormal(event)),
            Some(RoundProcessor::Recovery(_)) => match event {
                VerifiedEvent::SyncInfo(_) => Err(ConsensusError::UnexpectedDuringStartup),
                other => Ok(MsgOutput::DispatchRecovery(other)),
            },
            None => Err(ConsensusError::NotStarted),
        }
    }

    /// Gates one proposal, vote or sync-info by epoch, verifies its author
    /// against the validator set, and routes it.
    fn process_unverified_event(&self, peer_id: Author, event: UnverifiedEvent) -> (r: Result<
        MsgOutput,
        ConsensusError,
    >)
        requires
            self.spec_started(),
        ensures
            Self::spec_event_outcome(*self, *self, peer_id, event, r),
    {
        let e = self.current_epoch();
        if event.epoch() == e {
            let verified = match &self.processor {
                Some(RoundProcessor::Normal(p)) => event.verify(&p.epoch_state.verifier),
                Some(RoundProcessor::Recovery(p)) => event.verify(&p.epoch_state.verifier),
                None => Err(()),
            };
            match verified {
                Err(_) => Err(ConsensusError::InvalidMessage),
                Ok(v) => self.process_event(v),
            }
        } else {
            self.process_different_epoch(event.epoch(), peer_id)
        }
    }

    /// The epoch gate over every inbound consensus message.  A dispatched
    /// event always carries the local epoch; a failed check mutates
    /// nothing; a sync action is emitted at most once per target epoch.
    pub fn process_message(&mut self, peer_id: Author, msg: ConsensusMsg) -> (r: Result<
        MsgOutput,
        ConsensusError,
    >)
        requires
            old(self).wf(),
        ensures
            final(self).wf(),
            Self::spec_same_but_sync(*old(self), *final(self)),
            !old(self).spec_started() ==> r == Err::<MsgOutput, ConsensusError>(
                ConsensusError::NotStarted,
            ) && *final(self) == *old(self),
            old(self).spec_started() ==> Self::spec_message_outcome(
                *old(self),
                *final(self),
                peer_id,
                msg,
                r,
            ),
            r matches Ok(MsgOutput::DispatchNormal(ev)) ==> old(self).spec_started() && old(
                self,
            ).spec_processor() is Normal && ev.spec_epoch() == old(self).spec_epoch(),
            r matches Ok(MsgOutput::DispatchRecovery(ev)) ==> old(self).spec_started() && old(
                self,
            ).spec_processor() is Recovery && ev.spec_epoch() == old(self).spec_epoch(),
    {
        if self.processor.is_none() {
            return Err(ConsensusError::NotStarted);
        }
        match msg {
            ConsensusMsg::ProposalMsg(p) => self.process_unverified_event(
                peer_id,
                UnverifiedEvent::ProposalMsg(p),
            ),
            ConsensusMsg::VoteMsg(v) => self.process_unverified_event(
                peer_id,
                UnverifiedEvent::VoteMsg(v),
            ),
            ConsensusMsg::SyncInfo(s) => self.process_unverified_event(
                peer_id,
                UnverifiedEvent::SyncInfo(s),
            ),
            ConsensusMsg::EpochChangeProof(change_proof) => {
                let first = match change_proof.first_epoch() {
                    Err(_) => {
                        return Err(ConsensusError::InvalidMessage);
                    },
                    Ok(f) => f,
                };
                let e = self.current_epoch();
                if first == e {
                    self.start_new_epoch(&change_proof)
                } else {
                    self.process_different_epoch(first, peer_id)
                }
            },
            ConsensusMsg::EpochRetrievalRequest(request) => {
                let e = self.current_epoch();
                if request.end_epoch <= e {
                    self.process_epoch_retrieval(request, peer_id)
                } else {
                    Err(ConsensusError::InvalidRequest)
                }
            },
            ConsensusMsg::BlockRetrievalRequest(_) => Err(ConsensusError::UnexpectedMessage),
            ConsensusMsg::BlockRetrievalResponse(_) => Err(ConsensusError::UnexpectedMessage),
        }
    }

    /// A block-retrieval request is only served while a normal processor is
    /// active.
    pub fn process_block_retrieval(&mut self, request: BlockRetrievalRequest) -> (r: Result<
        MsgOutput,
        ConsensusError,
    >)
        requires
            old(self).wf(),
        ensures
            final(self).wf(),
            *final(self) == *old(self),
            old(self).spec_started() && old(self).spec_processor() is Normal ==> r == Ok::<
                MsgOutput,
                ConsensusError,
            >(MsgOutput::DispatchBlockRetrieval(request)),
            !(old(self).spec_started() && old(self).spec_processor() is Normal) ==> r == Err::<
                MsgOutput,
                ConsensusError,
            >(ConsensusError::NotStarted),
    {
        match &self.processor {
            Some(RoundProcessor::Normal(_)) => Ok(MsgOutput::DispatchBlockRetrieval(request)),
            _ => Err(ConsensusError::NotStarted),
        }
    }

    /// A local timeout tick.  Only a normal processor owns a round state;
    /// anything else is answered with `NotStarted` rather than reached.
    pub fn process_local_timeout(&mut self, round: u64, now_ms: u64) -> (r: Result<
        TimeoutOutcome,
        ConsensusError,
    >)
        requires
            old(self).wf(),
            now_in_range(now_ms),
        ensures
            final(self).wf(),
            final(self).author == old(self).author,
            final(self).config == old(self).config,
            final(self).sync_requested_to == old(self).sync_requested_to,
            !(old(self).spec_started() && old(self).spec_processor() is Normal) ==> r == Err::<
                TimeoutOutcome,
                ConsensusError,
            >(ConsensusError::NotStarted) && *final(self) == *old(self),
            old(self).spec_started() && old(self).spec_processor() is Normal ==> {
                let rm = old(self).spec_processor()->Normal_0;
                let rs = rm.round_state;
                &&& final(self).spec_started()
                &&& final(self).spec_processor() matches RoundProcessor::Normal(rm2)
                &&& final(self).spec_processor()->Normal_0.epoch_state == rm.epoch_state
                &&& final(self).spec_processor()->Normal_0.proposer_election
                    == rm.proposer_election
                &&& round != rs.round ==> r == Ok::<TimeoutOutcome, ConsensusError>(
                    TimeoutOutcome::Stale,
                ) && *final(self) == *old(self)
                &&& round == rs.round ==> {
                    let rs2 = final(self).spec_processor()->Normal_0.round_state;
                    &&& r == Ok::<TimeoutOutcome, ConsensusError>(
                        TimeoutOutcome::BroadcastTimeoutVote { round },
                    )
                    &&& rs2.round == rs.round
                    &&& rs2.base_timeout_ms == rs.base_timeout_ms
                    &&& rs2.timeouts == if rs.timeouts < u64::MAX {
                        rs.timeouts + 1
                    } else {
                        u64::MAX as int
                    }
                    &&& rs2.deadline_ms == now_ms + spec_backoff_ms(
                        rs.base_timeout_ms,
                        rs2.timeouts as nat,
                    )
                }
            },
    {
        match &mut self.processor {
            Some(RoundProcessor::Normal(p)) => {
                let outcome = p.round_state.process_local_timeout(round, now_ms);
                Ok(outcome)
            },
            _ => Err(ConsensusError::NotStarted),
        }
    }
}

/// Recording a sync target refuses it thereafter: once
/// `sync_requested_to` holds `t`, no later message may emit a second
/// sync action for `t`.  Together with `process_message`'s contract --
/// a `SyncTo { t }` is emitted only where `spec_allows_sync(t)` held and
/// leaves `sync_requested_to == Some(t)` -- receiving the same
/// epoch-change proof twice produces at most one state-sync call.
pub proof fn lemma_repeated_proof_syncs_once(post: EpochManager, t: u64)
    requires
        post.sync_requested_to == Some(t),
    ensures
        !post.spec_allows_sync(t as int),
{
}

/// Copies a vector of authors, preserving canonical order.
fn copy_authors(v: &Vec<Author>) -> (r: Vec<Author>)
    ensures
        r@ == v@,
{
    let mut r: Vec<Author> = Vec::new();
    let mut i: usize = 0;
    while i < v.len()
        invariant
            i <= v@.len(),
            r@ == v@.take(i as int),
        decreases v@.len() - i,
    {
        r.push(v[i]);
        proof {
            assert(r@ =~= v@.take(i as int + 1));
        }
        i += 1;
    }
    proof {
        assert(v@.take(v@.len() as int) =~= v@);
    }
    r
}

} // verus!
