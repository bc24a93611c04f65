use crate::address::Address;
use crate::error::GovernanceError;
use crate::params::{
    bond_multiplier, calculate_quorum, get_approval_threshold, get_bond_amount, get_voting_period,
    is_banned, spec_approval_threshold, spec_quorum, spec_required_bond, spec_voting_period,
    ProposalType, BPS_DENOMINATOR, REP_THRESHOLD_BAN,
};
use vstd::prelude::*;

verus! {

/// Where a proposal stands. `Active` is the only non-terminal state.
#[derive(Clone, Copy, Debug, PartialEq, Eq, Structural)]
pub enum ProposalStatus {
    Active,
    Passed,
    Rejected,
    Expired,
}

/// Reputation changes, one per finalization outcome.
pub const REP_PROPOSAL_PASSED: i32 = 2;
pub const REP_PROPOSAL_REJECTED: i32 = 1;
pub const REP_NO_QUORUM_50: i32 = -1;
pub const REP_NO_QUORUM_25: i32 = -2;
pub const REP_NO_QUORUM_10: i32 = -3;

/// Participation bands, in basis points of the quorum.
pub const QUORUM_THRESHOLD_50: u64 = 5000;
pub const QUORUM_THRESHOLD_25: u64 = 2500;

/// One governance action and its full lifecycle state.
#[derive(Clone, Copy, Debug)]
pub struct Proposal {
    pub id: u64,
    pub proposer: Address,
    pub proposal_type: ProposalType,
    pub status: ProposalStatus,
    pub title: [u8; 64],
    /// Content hash of the full description.
    pub description_hash: [u8; 32],
    pub bond_amount: u64,
    pub bond_resolved: bool,
    pub votes_yes: u64,
    pub votes_no: u64,
    pub votes_abstain: u64,
    pub total_voters: u64,
    pub quorum_required: u64,
    pub approval_threshold: u64,
    pub created_at: i64,
    pub voting_ends_at: i64,
    pub executed_at: i64,
    pub treasury_amount: u64,
    pub treasury_recipient: Address,
    pub sanction_country: [u8; 3],
    pub sanction_ubi_pct: u8,
}

impl Proposal {
    /// The record's invariant: tallies count every voter once, the bond is
    /// positive and settled exactly when the proposal has left `Active`, and
    /// the snapshotted rule is one that can be met.
    pub open spec fn wf(&self) -> bool {
        &&& self.votes_yes + self.votes_no + self.votes_abstain == self.total_voters
        &&& self.bond_amount > 0
        &&& self.quorum_required > 0
        &&& self.approval_threshold <= BPS_DENOMINATOR
        &&& (self.status == ProposalStatus::Active) == !self.bond_resolved
        &&& self.created_at <= self.voting_ends_at
    }

    /// Whether the record meets its invariant; for records loaded from storage.
    pub fn is_well_formed(&self) -> (r: bool)
        ensures
            r == self.wf(),
    {
        let sum: u128 = (self.votes_yes as u128) + (self.votes_no as u128)
            + (self.votes_abstain as u128);
        sum == self.total_voters as u128 && self.bond_amount > 0 && self.quorum_required > 0
            && self.approval_threshold <= BPS_DENOMINATOR && (self.status == ProposalStatus::Active)
            == !self.bond_resolved && self.created_at <= self.voting_ends_at
    }
}

/// Per-proposer reputation and outcome counters.
#[derive(Clone, Copy, Debug, PartialEq, Eq, Structural)]
pub struct ProposerState {
    pub user: Address,
    pub proposal_reputation: i32,
    pub proposals_created: u32,
    pub proposals_passed: u32,
    pub proposals_rejected: u32,
    pub proposals_expired: u32,
}

impl ProposerState {
    /// The record made for a proposer's first proposal.
    pub fn new(user: Address) -> (r: ProposerState)
        ensures
            r == (ProposerState {
                user,
                proposal_reputation: 0,
                proposals_created: 0,
                proposals_passed: 0,
                proposals_rejected: 0,
                proposals_expired: 0,
            }),
    {
        ProposerState {
            user,
            proposal_reputation: 0,
            proposals_created: 0,
            proposals_passed: 0,
            proposals_rejected: 0,
            proposals_expired: 0,
        }
    }
}

/// The proposal id allocator and running totals over all proposals.
#[derive(Clone, Copy, Debug, PartialEq, Eq, Structural)]
pub struct ProposalRegistry {
    pub next_proposal_id: u64,
    pub total_proposals: u64,
    pub active_proposals: u32,
    pub total_bonds_forfeited: u64,
    pub total_bonds_returned: u64,
}

impl ProposalRegistry {
    /// An empty registry; the first proposal gets id 1.
    pub fn new() -> (r: ProposalRegistry)
        ensures
            r == (ProposalRegistry {
                next_proposal_id: 1,
                total_proposals: 0,
                active_proposals: 0,
                total_bonds_forfeited: 0,
                total_bonds_returned: 0,
            }),
    {
        ProposalRegistry {
            next_proposal_id: 1,
            total_proposals: 0,
            active_proposals: 0,
            total_bonds_forfeited: 0,
            total_bonds_returned: 0,
        }
    }
}

pub open spec fn sat_inc_u32(x: u32) -> u32 {
    if x == u32::MAX {
        x
    } else {
        (x + 1) as u32
    }
}

pub open spec fn sat_add_u64(x: u64, y: u64) -> u64 {
    if x + y > u64::MAX {
        u64::MAX
    } else {
        (x + y) as u64
    }
}

pub open spec fn sat_add_i32(x: int, y: int) -> i32 {
    if x + y > i32::MAX {
        i32::MAX
    } else if x + y < i32::MIN {
        i32::MIN
    } else {
        (x + y) as i32
    }
}

/// Why `create_proposal` refuses, checked in this order, or `None`.
pub open spec fn spec_create_refusal(
    state: ProposerState,
    proposer: Address,
    proposal_type: ProposalType,
    sanction_ubi_pct: u8,
    proposer_balance: u64,
) -> Option<GovernanceError> {
    if state.user != proposer {
        Some(GovernanceError::ProposerMismatch)
    } else if is_banned(state.proposal_reputation as int) {
        Some(GovernanceError::ProposerBanned)
    } else if proposal_type == ProposalType::Sanction && !(1 <= sanction_ubi_pct <= 99) {
        Some(GovernanceError::InvalidSanctionPercentage)
    } else if proposer_balance < spec_required_bond(
        proposal_type,
        state.proposal_reputation as int,
    ) {
        Some(GovernanceError::InsufficientBond)
    } else {
        None
    }
}

/// Creates a proposal and says what bond the caller must escrow for it.
///
/// The bond is the category's base bond times the proposer's reputation
/// multiplier; quorum, approval threshold and voting window are snapshotted
/// from the category and `total_users`. On success the caller moves
/// `bond_amount` from the proposer into escrow as part of the same atomic
/// operation; `proposer_balance` is what the proposer can pay. A refused call
/// changes nothing.
pub fn create_proposal(
    registry: &mut ProposalRegistry,
    proposer_state: &mut ProposerState,
    proposer: Address,
    proposal_type: ProposalType,
    title: [u8; 64],
    description_hash: [u8; 32],
    treasury_amount: u64,
    treasury_recipient: Address,
    sanction_country: [u8; 3],
    sanction_ubi_pct: u8,
    total_users: u64,
    proposer_balance: u64,
    now: i64,
) -> (r: Result<Proposal, GovernanceError>)
    requires
        old(registry).next_proposal_id < u64::MAX,
        now + spec_voting_period(proposal_type) <= i64::MAX,
    ensures
        is_banned(old(proposer_state).proposal_reputation as int) ==> r is Err,
        ({
            let refusal = spec_create_refusal(
                *old(proposer_state),
                proposer,
                proposal_type,
                sanction_ubi_pct,
                proposer_balance,
            );
            match refusal {
                Some(e) => {
                    &&& r == Err::<Proposal, GovernanceError>(e)
                    &&& *final(registry) == *old(registry)
                    &&& *final(proposer_state) == *old(proposer_state)
                },
                None => {
                    &&& r is Ok
                    &&& r->Ok_0 == (Proposal {
                        id: old(registry).next_proposal_id,
                        proposer,
                        proposal_type,
                        status: ProposalStatus::Active,
                        title,
                        description_hash,
                        bond_amount: spec_required_bond(
                            proposal_type,
                            old(proposer_state).proposal_reputation as int,
                        ) as u64,
                        bond_resolved: false,
                        votes_yes: 0,
                        votes_no: 0,
                        votes_abstain: 0,
                        total_voters: 0,
                        quorum_required: spec_quorum(total_users as int, proposal_type) as u64,
                        approval_threshold: spec_approval_threshold(proposal_type) as u64,
                        created_at: now,
                        voting_ends_at: (now + spec_voting_period(proposal_type)) as i64,
                        executed_at: 0,
                        treasury_amount,
                        treasury_recipient,
                        sanction_country,
                        sanction_ubi_pct,
                    })
                    &&& r->Ok_0.wf()
                    &&& *final(registry) == (ProposalRegistry {
                        next_proposal_id: (old(registry).next_proposal_id + 1) as u64,
                        total_proposals: sat_add_u64(old(registry).total_proposals, 1),
                        active_proposals: sat_inc_u32(old(registry).active_proposals),
                        ..*old(registry)
                    })
                    &&& *final(proposer_state) == (ProposerState {
                        proposals_created: sat_inc_u32(old(proposer_state).proposals_created),
                        ..*old(proposer_state)
                    })
                },
            }
        }),
{
    if !proposer_state.user.same_as(&proposer) {
        return Err(GovernanceError::ProposerMismatch);
    }
    let score = proposer_state.proposal_reputation;
    if score <= REP_THRESHOLD_BAN {
        return Err(GovernanceError::ProposerBanned);
    }
    if proposal_type == ProposalType::Sanction && !(1 <= sanction_ubi_pct && sanction_ubi_pct <= 99) {
        return Err(GovernanceError::InvalidSanctionPercentage);
    }
    // A proposer above the ban threshold pays at most five times the base bond,
    // which stays far below `u64::MAX`.
    let base_bond = get_bond_amount(&proposal_type);
    let multiplier = bond_multiplier(score);
    assert(multiplier <= 5);
    assert(0 < base_bond * multiplier <= 500_000_000_000_000) by (nonlinear_arith)
        requires
            0 < base_bond <= 100_000_000_000_000,
            0 < multiplier <= 5,
    ;
    let bond_amount = base_bond * multiplier;
    if proposer_balance < bond_amount {
        return Err(GovernanceError::InsufficientBond);
    }
    let quorum = calculate_quorum(total_users, &proposal_type);
    let approval_threshold = get_approval_threshold(&proposal_type);
    let voting_period = get_voting_period(&proposal_type);
    assert(quorum > 0);
    let proposal = Proposal {
        id: registry.next_proposal_id,
        proposer,
        proposal_type,
        status: ProposalStatus::Active,
        title,
        description_hash,
        bond_amount,
        bond_resolved: false,
        votes_yes: 0,
        votes_no: 0,
        votes_abstain: 0,
        total_voters: 0,
        quorum_required: quorum,
        approval_threshold,
        created_at: now,
        voting_ends_at: now + voting_period,
        executed_at: 0,
        treasury_amount,
        treasury_recipient,
        sanction_country,
        sanction_ubi_pct,
    };
    registry.next_proposal_id = registry.next_proposal_id + 1;
    registry.total_proposals = registry.total_proposals.saturating_add(1);
    registry.active_proposals = registry.active_proposals.saturating_add(1);
    proposer_state.proposals_created = proposer_state.proposals_created.saturating_add(1);
    Ok(proposal)
}

/// What finalization decides from the tallies.
#[derive(Clone, Copy, Debug, PartialEq, Eq, Structural)]
pub struct Decision {
    pub status: ProposalStatus,
    pub reputation_change: i32,
    /// Whether the bond goes back to the proposer (else to the treasury).
    pub return_bond: bool,
}

/// The outcome table. Only Yes and No votes are decisive. With quorum the
/// proposal passes (+2) or is rejected (+1) by its approval share; without,
/// it expires, losing 1, 2 or 3 reputation as participation reached half,
/// a quarter, or less than a quarter of the quorum. The bond is refunded
/// exactly when participation reached half of the quorum.
pub open spec fn spec_decide(yes: int, no: int, quorum: int, threshold: int) -> Decision {
    let decisive = yes + no;
    if decisive >= quorum {
        let approval = if decisive == 0 {
            0
        } else {
            yes * 10000 / decisive
        };
        if approval >= threshold {
            Decision {
                status: ProposalStatus::Passed,
                reputation_change: REP_PROPOSAL_PASSED,
                return_bond: true,
            }
        } else {
            Decision {
                status: ProposalStatus::Rejected,
                reputation_change: REP_PROPOSAL_REJECTED,
                return_bond: true,
            }
        }
    } else {
        let participation = decisive * 10000 / quorum;
        if participation >= QUORUM_THRESHOLD_50 {
            Decision {
                status: ProposalStatus::Expired,
                reputation_change: REP_NO_QUORUM_50,
                return_bond: true,
            }
        } else if participation >= QUORUM_THRESHOLD_25 {
            Decision {
                status: ProposalStatus::Expired,
                reputation_change: REP_NO_QUORUM_25,
                return_bond: false,
            }
        } else {
            Decision {
                status: ProposalStatus::Expired,
                reputation_change: REP_NO_QUORUM_10,
                return_bond: false,
            }
        }
    }
}

/// Decides the outcome of a proposal from one snapshot of its tallies.
pub fn decide_outcome(
    votes_yes: u64,
    votes_no: u64,
    quorum_required: u64,
    approval_threshold: u64,
) -> (r: Decision)
    ensures
        r == spec_decide(
            votes_yes as int,
            votes_no as int,
            quorum_required as int,
            approval_threshold as int,
        ),
{
    let decisive: u128 = (votes_yes as u128) + (votes_no as u128);
    if decisive >= quorum_required as u128 {
        let approval: u128 = if decisive == 0 {
            0
        } else {
            (votes_yes as u128) * (BPS_DENOMINATOR as u128) / decisive
        };
        if approval >= approval_threshold as u128 {
            Decision {
                status: ProposalStatus::Passed,
                reputation_change: REP_PROPOSAL_PASSED,
                return_bond: true,
            }
        } else {
            Decision {
                status: ProposalStatus::Rejected,
                reputation_change: REP_PROPOSAL_REJECTED,
                return_bond: true,
            }
        }
    } else {
        let participation: u128 = decisive * (BPS_DENOMINATOR as u128) / (quorum_required as u128);
        if participation >= QUORUM_THRESHOLD_50 as u128 {
            Decision {
                status: ProposalStatus::Expired,
                reputation_change: REP_NO_QUORUM_50,
                return_bond: true,
            }
        } else if participation >= QUORUM_THRESHOLD_25 as u128 {
            Decision {
                status: ProposalStatus::Expired,
                reputation_change: REP_NO_QUORUM_25,
                return_bond: false,
            }
        } else {
            Decision {
                status: ProposalStatus::Expired,
                reputation_change: REP_NO_QUORUM_10,
                return_bond: false,
            }
        }
    }
}

/// The two places an escrowed bond can go.
#[derive(Clone, Copy, Debug, PartialEq, Eq, Structural)]
pub enum BondDestination {
    Proposer,
    Treasury,
}

/// The single transfer out of escrow that finalization asks the caller to make.
#[derive(Clone, Copy, Debug, PartialEq, Eq, Structural)]
pub struct BondTransfer {
    pub destination: BondDestination,
    pub amount: u64,
}

/// Finalization as a transition on (proposal, proposer record, registry).
/// It is refused, changing nothing, unless the proposal is `Active`, its
/// voting window has closed (`now > voting_ends_at`) and the proposer record
/// is the proposer's. Otherwise the proposal takes the decided terminal
/// status and its bond is settled, the proposer's reputation moves by the
/// decided change (saturating), the matching outcome counter and the
/// registry's totals are updated (saturating), and the whole bond is
/// transferred to one destination.
pub open spec fn spec_finalize(
    p: Proposal,
    s: ProposerState,
    g: ProposalRegistry,
    now: i64,
) -> (Proposal, ProposerState, ProposalRegistry, Result<BondTransfer, GovernanceError>) {
    if p.status != ProposalStatus::Active {
        (p, s, g, Err(GovernanceError::ProposalNotActive))
    } else if now <= p.voting_ends_at {
        (p, s, g, Err(GovernanceError::VotingNotEnded))
    } else if s.user != p.proposer {
        (p, s, g, Err(GovernanceError::ProposerMismatch))
    } else {
        let d = spec_decide(
            p.votes_yes as int,
            p.votes_no as int,
            p.quorum_required as int,
            p.approval_threshold as int,
        );
        let p2 = Proposal { status: d.status, bond_resolved: true, executed_at: now, ..p };
        let s2 = ProposerState {
            proposal_reputation: sat_add_i32(
                s.proposal_reputation as int,
                d.reputation_change as int,
            ),
            proposals_passed: if d.status == ProposalStatus::Passed {
                sat_inc_u32(s.proposals_passed)
            } else {
                s.proposals_passed
            },
            proposals_rejected: if d.status == ProposalStatus::Rejected {
                sat_inc_u32(s.proposals_rejected)
            } else {
                s.proposals_rejected
            },
            proposals_expired: if d.status == ProposalStatus::Expired {
                sat_inc_u32(s.proposals_expired)
            } else {
                s.proposals_expired
            },
            ..s
        };
        let g2 = ProposalRegistry {
            active_proposals: if g.active_proposals == 0 {
                0
            } else {
                (g.active_proposals - 1) as u32
            },
            total_bonds_returned: if d.return_bond {
                sat_add_u64(g.total_bonds_returned, p.bond_amount)
            } else {
                g.total_bonds_returned
            },
            total_bonds_forfeited: if d.return_bond {
                g.total_bonds_forfeited
            } else {
                sat_add_u64(g.total_bonds_forfeited, p.bond_amount)
            },
            ..g
        };
        let t = BondTransfer {
            destination: if d.return_bond {
                BondDestination::Proposer
            } else {
                BondDestination::Treasury
            },
            amount: p.bond_amount,
        };
        (p2, s2, g2, Ok(t))
    }
}

/// Moves a score by a reputation change, saturating at the `i32` bounds.
pub fn apply_reputation_change(score: i32, change: i32) -> (r: i32)
    ensures
        r == sat_add_i32(score as int, change as int),
{
    let sum: i64 = (score as i64) + (change as i64);
    if sum > i32::MAX as i64 {
        i32::MAX
    } else if sum < i32::MIN as i64 {
        i32::MIN
    } else {
        sum as i32
    }
}

/// Finalizes a proposal after its voting window has closed, returning the
/// one bond transfer that the caller must carry out.
pub fn finalize_proposal(
    proposal: &mut Proposal,
    proposer_state: &mut ProposerState,
    registry: &mut ProposalRegistry,
    now: i64,
) -> (r: Result<BondTransfer, GovernanceError>)
    ensures
        (*final(proposal), *final(proposer_state), *final(registry), r) == spec_finalize(
            *old(proposal),
            *old(proposer_state),
            *old(registry),
            now,
        ),
        old(proposal).wf() ==> final(proposal).wf(),
{
    if proposal.status != ProposalStatus::Active {
        return Err(GovernanceError::ProposalNotActive);
    }
    if now <= proposal.voting_ends_at {
        return Err(GovernanceError::VotingNotEnded);
    }
    if !proposer_state.user.same_as(&proposal.proposer) {
        return Err(GovernanceError::ProposerMismatch);
    }
    let decision = decide_outcome(
        proposal.votes_yes,
        proposal.votes_no,
        proposal.quorum_required,
        proposal.approval_threshold,
    );
    proposal.status = decision.status;
    proposal.bond_resolved = true;
    proposal.executed_at = now;

    proposer_state.proposal_reputation = apply_reputation_change(
        proposer_state.proposal_reputation,
        decision.reputation_change,
    );
    match decision.status {
        ProposalStatus::Passed => {
            proposer_state.proposals_passed = proposer_state.proposals_passed.saturating_add(1);
        },
        ProposalStatus::Rejected => {
            proposer_state.proposals_rejected = proposer_state.proposals_rejected.saturating_add(1);
        },
        _ => {
            proposer_state.proposals_expired = proposer_state.proposals_expired.saturating_add(1);
        },
    }

    registry.active_proposals = registry.active_proposals.saturating_sub(1);
    let destination = if decision.return_bond {
        registry.total_bonds_returned = registry.total_bonds_returned.saturating_add(
            proposal.bond_amount,
        );
        BondDestination::Proposer
    } else {
        registry.total_bonds_forfeited = registry.total_bonds_forfeited.saturating_add(
            proposal.bond_amount,
        );
        BondDestination::Treasury
    };
    Ok(BondTransfer { destination, amount: proposal.bond_amount })
}

} // verus!
