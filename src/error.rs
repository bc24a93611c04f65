use vstd::prelude::*;

verus! {

/// Why a governance call was refused. A refused call changes no record.
#[derive(Clone, Copy, Debug, PartialEq, Eq, Structural)]
pub enum GovernanceError {
    /// The proposer's reputation is at or below the ban threshold.
    ProposerBanned,
    /// A sanction percentage outside 1..=99.
    InvalidSanctionPercentage,
    /// The proposer cannot pay the required bond.
    InsufficientBond,
    /// The proposer record belongs to another account.
    ProposerMismatch,
    /// The voter is not a verified participant.
    VoterNotVerified,
    /// The proposal is no longer active.
    ProposalNotActive,
    /// The voting window has closed.
    VotingEnded,
    /// A vote choice other than 0 (No), 1 (Yes) or 2 (Abstain).
    InvalidVoteChoice,
    /// A vote record already exists for this voter and proposal.
    AlreadyVoted,
    /// The voting window has not closed yet.
    VotingNotEnded,
    /// The proposal has not passed.
    ProposalNotPassed,
    /// The proposal's category does not allow this action.
    WrongProposalType,
    /// A base fee rate above 100 basis points.
    FeeTooHigh,
    /// A burn percentage above 100.
    InvalidBurnPercentage,
}

} // verus!
