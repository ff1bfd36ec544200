//! Proposer election: maps `(epoch, round)` to the round's leader over the
//! canonical ordering of the validator set.

use vstd::prelude::*;

use crate::types::Author;

verus! {

/// The weight a leader-reputation candidate earns, depending on whether it
/// was observed signing recent ledger infos.
pub open spec fn spec_reputation_weight(
    recent_signers: Seq<Author>,
    active_weight: u64,
    inactive_weight: u64,
    a: Author,
) -> u64 {
    if recent_signers.contains(a) {
        active_weight
    } else {
        inactive_weight
    }
}

/// How the round's leader is chosen.  A fixed proposer is rotation over a
/// single author, so it needs no variant of its own.
#[derive(Clone, Debug)]
pub enum ProposerElection {
    /// `leader(round) = proposers[(round / contiguous_rounds) mod N]`.
    RotatingProposer { proposers: Vec<Author>, contiguous_rounds: u32 },
    /// Scores each candidate by an active/inactive heuristic and takes the
    /// highest-weight one; ties break toward the canonical ordering.
    LeaderReputation { proposers: Vec<Author>, active_weights: u64, inactive_weights: u64 },
}

impl ProposerElection {
    pub open spec fn spec_proposers(self) -> Seq<Author> {
        match self {
            ProposerElection::RotatingProposer { proposers, .. } => proposers@,
            ProposerElection::LeaderReputation { proposers, .. } => proposers@,
        }
    }

    pub open spec fn wf(self) -> bool {
        &&& self.spec_proposers().len() > 0
        &&& self matches ProposerElection::RotatingProposer { contiguous_rounds, .. }
            ==> contiguous_rounds > 0
    }

    /// The leader a rotating proposer picks for `round`.
    pub open spec fn spec_rotating_leader(proposers: Seq<Author>, contiguous_rounds: u32, round: u64) -> Author
        recommends
            proposers.len() > 0,
            contiguous_rounds > 0,
    {
        proposers[((round as int / contiguous_rounds as int) % proposers.len() as int)]
    }

    /// Whether `j` is the first position of maximal weight among `proposers`.
    pub open spec fn spec_first_heaviest(
        proposers: Seq<Author>,
        recent_signers: Seq<Author>,
        active_weights: u64,
        inactive_weights: u64,
        j: int,
    ) -> bool {
        &&& 0 <= j < proposers.len()
        &&& forall|i: int|
            0 <= i < proposers.len() ==> spec_reputation_weight(
                recent_signers,
                active_weights,
                inactive_weights,
                #[trigger] proposers[i],
            ) <= spec_reputation_weight(recent_signers, active_weights, inactive_weights, proposers[j])
        &&& forall|i: int|
            0 <= i < j ==> spec_reputation_weight(
                recent_signers,
                active_weights,
                inactive_weights,
                #[trigger] proposers[i],
            ) < spec_reputation_weight(recent_signers, active_weights, inactive_weights, proposers[j])
    }

    /// The leader for `round`.  `recent_signers` is what the observation
    /// backend reports for the round's sliding window; rotation ignores it.
    pub fn get_valid_proposer(&self, round: u64, recent_signers: &Vec<Author>) -> (a: Author)
        requires
            self.wf(),
        ensures
            self matches ProposerElection::RotatingProposer { proposers, contiguous_rounds }
                ==> a == Self::spec_rotating_leader(proposers@, *contiguous_rounds, round),
            self matches ProposerElection::LeaderReputation {
                proposers,
                active_weights,
                inactive_weights,
            } ==> exists|j: int|
                #[trigger] Self::spec_first_heaviest(
                    proposers@,
                    recent_signers@,
                    *active_weights,
                    *inactive_weights,
                    j,
                ) && a == proposers@[j],
    {
        match self {
            ProposerElection::RotatingProposer { proposers, contiguous_rounds } => {
                let idx = (round / (*contiguous_rounds as u64)) % (proposers.len() as u64);
                proposers[idx as usize]
            },
            ProposerElection::LeaderReputation { proposers, active_weights, inactive_weights } => {
                let mut best: usize = 0;
                let mut best_weight: u64 = reputation_weight(
                    recent_signers,
                    *active_weights,
                    *inactive_weights,
                    &proposers[0],
                );
                let mut i: usize = 1;
                while i < proposers.len()
                    invariant
                        proposers@.len() > 0,
                        1 <= i <= proposers@.len(),
                        best < i,
                        best_weight == spec_reputation_weight(
                            recent_signers@,
                            *active_weights,
                            *inactive_weights,
                            proposers@[best as int],
                        ),
                        forall|j: int|
                            0 <= j < i ==> spec_reputation_weight(
                                recent_signers@,
                                *active_weights,
                                *inactive_weights,
                                #[trigger] proposers@[j],
                            ) <= best_weight,
                        forall|j: int|
                            0 <= j < best ==> spec_reputation_weight(
                                recent_signers@,
                                *active_weights,
                                *inactive_weights,
                                #[trigger] proposers@[j],
                            ) < best_weight,
                    decreases proposers@.len() - i,
                {
                    let w = reputation_weight(
                        recent_signers,
                        *active_weights,
                        *inactive_weights,
                        &proposers[i],
                    );
                    if w > best_weight {
                        best = i;
                        best_weight = w;
                    }
                    i += 1;
                }
                proof {
                    assert(Self::spec_first_heaviest(
                        proposers@,
                        recent_signers@,
                        *active_weights,
                        *inactive_weights,
                        best as int,
                    ));
                }
                proposers[best]
            },
        }
    }
}

/// The weight of one candidate under the active/inactive heuristic.
fn reputation_weight(
    recent_signers: &Vec<Author>,
    active_weight: u64,
    inactive_weight: u64,
    a: &Author,
) -> (w: u64)
    ensures
        w == spec_reputation_weight(recent_signers@, active_weight, inactive_weight, *a),
{
    match crate::types::author_index(recent_signers, a) {
        Some(_) => active_weight,
        None => inactive_weight,
    }
}

} // verus!
