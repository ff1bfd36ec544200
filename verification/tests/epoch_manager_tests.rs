use consensus_core::epoch_manager::ConsensusConfig;
use consensus_core::epoch_manager::ConsensusError;
use consensus_core::epoch_manager::EpochManager;
use consensus_core::epoch_manager::LedgerRecoveryData;
use consensus_core::epoch_manager::LivenessStorageData;
use consensus_core::epoch_manager::MsgOutput;
use consensus_core::epoch_manager::OnChainConfigPayload;
use consensus_core::epoch_manager::ProposerType;
use consensus_core::epoch_manager::RecoveryData;
use consensus_core::epoch_manager::RoundProcessor;
use consensus_core::msgs::BlockRetrievalRequest;
use consensus_core::msgs::ConsensusMsg;
use consensus_core::msgs::EpochChangeProof;
use consensus_core::msgs::EpochRetrievalRequest;
use consensus_core::msgs::LedgerInfo;
use consensus_core::msgs::ProposalMsg;
use consensus_core::msgs::SyncInfo;
use consensus_core::msgs::VerifiedEvent;
use consensus_core::msgs::VoteMsg;
use consensus_core::types::Author;
use consensus_core::types::EpochState;
use consensus_core::types::ValidatorVerifier;

fn verifier_of(lows: &[u64]) -> ValidatorVerifier {
    let entries: Vec<(Author, u64)> = lows.iter().map(|x| (Author::from_low(*x), 1)).collect();
    ValidatorVerifier::new(entries).expect("a valid validator set")
}

fn config() -> ConsensusConfig {
    ConsensusConfig {
        round_initial_timeout_ms: 1000,
        max_block_size: 4096,
        max_pruned_blocks_in_mem: 100,
        contiguous_rounds: 2,
        proposer_type: ProposerType::RotatingProposer,
    }
}

fn started_manager(epoch: u64, storage: LivenessStorageData) -> EpochManager {
    let mut em = EpochManager::new(Author::from_low(1), config());
    em.start_processor(
        OnChainConfigPayload { epoch, validators: verifier_of(&[1, 2, 3]) },
        storage,
        0,
    );
    em
}

fn recovery_storage() -> LivenessStorageData {
    LivenessStorageData::RecoveryData(RecoveryData { root_round: 0, last_vote: None })
}

fn proposal(epoch: u64, proposer: Author) -> ConsensusMsg {
    ConsensusMsg::ProposalMsg(ProposalMsg { epoch, round: 1, proposer, payload: vec![] })
}

// Exactly one processor is active once the first reconfiguration payload
// is consumed; none before.
#[test]
fn first_reconfiguration_starts_one_processor() {
    let em = EpochManager::new(Author::from_low(1), config());
    assert!(em.processor.is_none());
    assert!(em.epoch().is_none());

    let em = started_manager(1, recovery_storage());
    assert!(matches!(em.processor, Some(RoundProcessor::Normal(_))));
    assert_eq!(Some(1), em.epoch());

    let em = started_manager(1, LivenessStorageData::LedgerRecoveryData(LedgerRecoveryData {
        commit_round: 7,
    }));
    assert!(matches!(em.processor, Some(RoundProcessor::Recovery(_))));
    assert_eq!(Some(1), em.epoch());
}

// A message from a lower epoch is answered with a proof covering
// [msg epoch, local epoch); the processor never sees it.
#[test]
fn different_epoch_below() {
    let mut em = started_manager(5, recovery_storage());
    let peer = Author::from_low(9);
    let r = em.process_message(peer, proposal(3, Author::from_low(2)));
    match r {
        Ok(MsgOutput::SendEpochChangeProof { to, start_epoch, end_epoch }) => {
            assert_eq!(to, peer);
            assert_eq!(3, start_epoch);
            assert_eq!(5, end_epoch);
        }
        other => panic!("expected an epoch proof for the peer, got {:?}", other),
    }
}

// A message from a higher epoch asks the peer for the missing proofs.
#[test]
fn different_epoch_above() {
    let mut em = started_manager(5, recovery_storage());
    let peer = Author::from_low(9);
    let r = em.process_message(peer, proposal(7, Author::from_low(2)));
    match r {
        Ok(MsgOutput::SendEpochRetrievalRequest { to, start_epoch, end_epoch }) => {
            assert_eq!(to, peer);
            assert_eq!(5, start_epoch);
            assert_eq!(7, end_epoch);
        }
        other => panic!("expected an epoch retrieval request, got {:?}", other),
    }
}

// An event of the local epoch reaches the normal processor, and carries
// exactly the local epoch.
#[test]
fn matching_epoch_is_dispatched() {
    let mut em = started_manager(5, recovery_storage());
    let peer = Author::from_low(9);
    let r = em.process_message(peer, proposal(5, Author::from_low(2)));
    match r {
        Ok(MsgOutput::DispatchNormal(VerifiedEvent::ProposalMsg(p))) => {
            assert_eq!(5, p.epoch);
        }
        other => panic!("expected a dispatch to the round manager, got {:?}", other),
    }
    let r = em.process_message(
        peer,
        ConsensusMsg::VoteMsg(VoteMsg { epoch: 5, round: 1, author: Author::from_low(3) }),
    );
    assert!(matches!(r, Ok(MsgOutput::DispatchNormal(VerifiedEvent::VoteMsg(_)))));
    let r = em.process_message(
        peer,
        ConsensusMsg::SyncInfo(SyncInfo { epoch: 5, highest_certified_round: 3 }),
    );
    assert!(matches!(r, Ok(MsgOutput::DispatchNormal(VerifiedEvent::SyncInfo(_)))));
}

// A proposal whose author is outside the validator set fails verification
// and mutates nothing.
#[test]
fn unknown_author_is_invalid() {
    let mut em = started_manager(5, recovery_storage());
    let r = em.process_message(Author::from_low(9), proposal(5, Author::from_low(42)));
    assert!(matches!(r, Err(ConsensusError::InvalidMessage)));
    assert_eq!(Some(5), em.epoch());
}

// Epoch retrieval within the local horizon is served; beyond it refused.
#[test]
fn epoch_retrieval_bounds() {
    let mut em = started_manager(5, recovery_storage());
    let peer = Author::from_low(9);
    let r = em.process_message(
        peer,
        ConsensusMsg::EpochRetrievalRequest(EpochRetrievalRequest { start_epoch: 2, end_epoch: 5 }),
    );
    match r {
        Ok(MsgOutput::SendEpochChangeProof { to, start_epoch, end_epoch }) => {
            assert_eq!(to, peer);
            assert_eq!(2, start_epoch);
            assert_eq!(5, end_epoch);
        }
        other => panic!("expected the proof slice to be served, got {:?}", other),
    }
    let r = em.process_message(
        peer,
        ConsensusMsg::EpochRetrievalRequest(EpochRetrievalRequest { start_epoch: 2, end_epoch: 7 }),
    );
    assert!(matches!(r, Err(ConsensusError::InvalidRequest)));
}

// Messages that do not belong on the consensus channel are refused.
#[test]
fn unexpected_message_kind() {
    let mut em = started_manager(5, recovery_storage());
    let r = em.process_message(
        Author::from_low(9),
        ConsensusMsg::BlockRetrievalRequest(BlockRetrievalRequest { start_round: 1, num_blocks: 2 }),
    );
    assert!(matches!(r, Err(ConsensusError::UnexpectedMessage)));
}

// Before the first reconfiguration nothing is dispatched.
#[test]
fn not_started_errors() {
    let mut em = EpochManager::new(Author::from_low(1), config());
    let r = em.process_message(Author::from_low(9), proposal(1, Author::from_low(2)));
    assert!(matches!(r, Err(ConsensusError::NotStarted)));
    let r = em.process_block_retrieval(BlockRetrievalRequest { start_round: 1, num_blocks: 2 });
    assert!(matches!(r, Err(ConsensusError::NotStarted)));
    let r = em.process_local_timeout(1, 0);
    assert!(matches!(r, Err(ConsensusError::NotStarted)));
}

// Receiving the same epoch-change proof twice produces at most one
// state-sync call.
#[test]
fn repeated_proof_syncs_once() {
    let mut em = started_manager(5, recovery_storage());
    let peer = Author::from_low(9);
    let proof = || {
        ConsensusMsg::EpochChangeProof(EpochChangeProof {
            ledger_infos: vec![LedgerInfo { epoch: 5, round: 30 }],
        })
    };
    let r = em.process_message(peer, proof());
    assert!(matches!(r, Ok(MsgOutput::SyncTo { target_epoch: 6 })));
    let r = em.process_message(peer, proof());
    assert!(matches!(r, Ok(MsgOutput::SyncAlreadyRequested { target_epoch: 6 })));
    // A proof reaching further is still acted on.
    let r = em.process_message(
        peer,
        ConsensusMsg::EpochChangeProof(EpochChangeProof {
            ledger_infos: vec![LedgerInfo { epoch: 5, round: 30 }, LedgerInfo { epoch: 6, round: 2 }],
        }),
    );
    assert!(matches!(r, Ok(MsgOutput::SyncTo { target_epoch: 7 })));
}

// A proof that does not start at the local epoch goes the different-epoch
// way; a malformed one is refused.
#[test]
fn proof_gating() {
    let mut em = started_manager(5, recovery_storage());
    let peer = Author::from_low(9);
    let r = em.process_message(
        peer,
        ConsensusMsg::EpochChangeProof(EpochChangeProof {
            ledger_infos: vec![LedgerInfo { epoch: 3, round: 30 }],
        }),
    );
    assert!(matches!(r, Ok(MsgOutput::SendEpochChangeProof { start_epoch: 3, end_epoch: 5, .. })));
    let r = em.process_message(
        peer,
        ConsensusMsg::EpochChangeProof(EpochChangeProof { ledger_infos: vec![] }),
    );
    assert!(matches!(r, Err(ConsensusError::InvalidMessage)));
    // A gap between records is malformed.
    let r = em.process_message(
        peer,
        ConsensusMsg::EpochChangeProof(EpochChangeProof {
            ledger_infos: vec![LedgerInfo { epoch: 5, round: 30 }, LedgerInfo { epoch: 7, round: 1 }],
        }),
    );
    assert!(matches!(r, Err(ConsensusError::InvalidMessage)));
}

// Recovery promotion: a recovering session is promoted in place to a
// normal one at the same epoch, and subsequent proposals reach it.
#[test]
fn recovery_promotion() {
    let mut em = started_manager(
        5,
        LivenessStorageData::LedgerRecoveryData(LedgerRecoveryData { commit_round: 7 }),
    );
    assert!(matches!(em.processor, Some(RoundProcessor::Recovery(_))));

    let peer = Author::from_low(9);
    // A proposal of the current epoch is handed to the recovery processor.
    let r = em.process_message(peer, proposal(5, Author::from_low(2)));
    assert!(matches!(r, Ok(MsgOutput::DispatchRecovery(VerifiedEvent::ProposalMsg(_)))));
    // A sync-info is not expected during startup.
    let r = em.process_message(
        peer,
        ConsensusMsg::SyncInfo(SyncInfo { epoch: 5, highest_certified_round: 3 }),
    );
    assert!(matches!(r, Err(ConsensusError::UnexpectedDuringStartup)));

    // The recovery processor came back with fresh recovery data: promote.
    let epoch_state = EpochState { epoch: 5, verifier: verifier_of(&[1, 2, 3]) };
    em.start_round_manager(RecoveryData { root_round: 8, last_vote: None }, epoch_state, 0);
    assert!(matches!(em.processor, Some(RoundProcessor::Normal(_))));
    assert_eq!(Some(5), em.epoch());
    let r = em.process_message(peer, proposal(5, Author::from_low(2)));
    assert!(matches!(r, Ok(MsgOutput::DispatchNormal(VerifiedEvent::ProposalMsg(_)))));
}

// Block retrieval is served only while a normal processor is active.
#[test]
fn block_retrieval_needs_normal_processor() {
    let mut em = started_manager(
        5,
        LivenessStorageData::LedgerRecoveryData(LedgerRecoveryData { commit_round: 7 }),
    );
    let r = em.process_block_retrieval(BlockRetrievalRequest { start_round: 1, num_blocks: 2 });
    assert!(matches!(r, Err(ConsensusError::NotStarted)));

    let mut em = started_manager(5, recovery_storage());
    let r = em.process_block_retrieval(BlockRetrievalRequest { start_round: 1, num_blocks: 2 });
    assert!(matches!(r, Ok(MsgOutput::DispatchBlockRetrieval(_))));
}

#[test]
fn expect_recovery_data_unwraps() {
    let data = RecoveryData { root_round: 4, last_vote: None };
    let unwrapped =
        LivenessStorageData::RecoveryData(data).expect_recovery_data("recovery data expected");
    assert_eq!(4, unwrapped.root_round);
}
