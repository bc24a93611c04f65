use crate::error::GovernanceError;
use crate::params::ProposalType;
use crate::proposal::{Proposal, ProposalStatus};
use vstd::prelude::*;

verus! {

/// How long an imposed sanction lasts, in seconds.
pub const DEFAULT_SANCTION_DURATION: i64 = 365 * 86400;

/// The lowest UBI percentage a sanction may leave; a population is never
/// excluded entirely.
pub const MIN_SANCTION_UBI_PCT: u8 = 1;
pub const MAX_SANCTION_UBI_PCT: u8 = 99;

/// Fee defaults and bounds, in basis points or percent as named.
pub const DEFAULT_BASE_FEE_RATE: u64 = 5;
pub const DEFAULT_BURN_PERCENTAGE: u64 = 50;
pub const MAX_BASE_FEE_RATE: u64 = 100;
pub const MAX_BURN_PERCENTAGE: u64 = 100;
pub const ACTIVE_MULTIPLIER: u64 = 80;
pub const NORMAL_MULTIPLIER: u64 = 100;
pub const INACTIVE_MULTIPLIER: u64 = 150;
pub const DORMANT_MULTIPLIER: u64 = 200;

/// A reduction of the daily benefit for one country's citizens, produced by
/// a passed sanction proposal and read by the distribution engine.
#[derive(Clone, Copy, Debug)]
pub struct CountrySanction {
    pub country_code: [u8; 3],
    /// The share of the benefit that is kept, strictly between 0 and 100.
    pub ubi_percentage: u8,
    pub imposed_at: i64,
    pub expires_at: i64,
    pub proposal_id: u64,
    pub is_active: bool,
    pub lifted_early: bool,
    pub lifted_at: i64,
}

/// Transfer-fee parameters, read by the fee calculator.
#[derive(Clone, Copy, Debug, PartialEq, Eq, Structural)]
pub struct FeeState {
    /// In basis points of the amount transferred.
    pub base_fee_rate: u64,
    /// The percentage of each fee that is burned.
    pub burn_percentage: u64,
    pub active_multiplier: u64,
    pub normal_multiplier: u64,
    pub inactive_multiplier: u64,
    pub dormant_multiplier: u64,
    pub last_updated: i64,
}

impl FeeState {
    /// The parameters in force before any fee proposal has passed.
    pub fn new(now: i64) -> (r: FeeState)
        ensures
            r == (FeeState {
                base_fee_rate: DEFAULT_BASE_FEE_RATE,
                burn_percentage: DEFAULT_BURN_PERCENTAGE,
                active_multiplier: ACTIVE_MULTIPLIER,
                normal_multiplier: NORMAL_MULTIPLIER,
                inactive_multiplier: INACTIVE_MULTIPLIER,
                dormant_multiplier: DORMANT_MULTIPLIER,
                last_updated: now,
            }),
    {
        FeeState {
            base_fee_rate: DEFAULT_BASE_FEE_RATE,
            burn_percentage: DEFAULT_BURN_PERCENTAGE,
            active_multiplier: ACTIVE_MULTIPLIER,
            normal_multiplier: NORMAL_MULTIPLIER,
            inactive_multiplier: INACTIVE_MULTIPLIER,
            dormant_multiplier: DORMANT_MULTIPLIER,
            last_updated: now,
        }
    }
}

/// The sanction record that a passed sanction proposal yields at `now`.
/// The call reads the proposal only, so anyone may repeat it.
pub fn impose_sanction(proposal: &Proposal, now: i64) -> (r: Result<CountrySanction, GovernanceError>)
    requires
        now + DEFAULT_SANCTION_DURATION <= i64::MAX,
    ensures
        proposal.status != ProposalStatus::Passed ==> r == Err::<CountrySanction, GovernanceError>(
            GovernanceError::ProposalNotPassed,
        ),
        proposal.status == ProposalStatus::Passed && proposal.proposal_type != ProposalType::Sanction
            ==> r == Err::<CountrySanction, GovernanceError>(GovernanceError::WrongProposalType),
        proposal.status == ProposalStatus::Passed && proposal.proposal_type == ProposalType::Sanction
            && !(MIN_SANCTION_UBI_PCT <= proposal.sanction_ubi_pct <= MAX_SANCTION_UBI_PCT) ==> r
            == Err::<CountrySanction, GovernanceError>(GovernanceError::InvalidSanctionPercentage),
        proposal.status == ProposalStatus::Passed && proposal.proposal_type == ProposalType::Sanction
            && MIN_SANCTION_UBI_PCT <= proposal.sanction_ubi_pct <= MAX_SANCTION_UBI_PCT ==> r
            == Ok::<CountrySanction, GovernanceError>(
            CountrySanction {
                country_code: proposal.sanction_country,
                ubi_percentage: proposal.sanction_ubi_pct,
                imposed_at: now,
                expires_at: (now + DEFAULT_SANCTION_DURATION) as i64,
                proposal_id: proposal.id,
                is_active: true,
                lifted_early: false,
                lifted_at: 0,
            },
        ),
{
    if proposal.status != ProposalStatus::Passed {
        return Err(GovernanceError::ProposalNotPassed);
    }
    if proposal.proposal_type != ProposalType::Sanction {
        return Err(GovernanceError::WrongProposalType);
    }
    if !(MIN_SANCTION_UBI_PCT <= proposal.sanction_ubi_pct
        && proposal.sanction_ubi_pct <= MAX_SANCTION_UBI_PCT) {
        return Err(GovernanceError::InvalidSanctionPercentage);
    }
    Ok(
        CountrySanction {
            country_code: proposal.sanction_country,
            ubi_percentage: proposal.sanction_ubi_pct,
            imposed_at: now,
            expires_at: now + DEFAULT_SANCTION_DURATION,
            proposal_id: proposal.id,
            is_active: true,
            lifted_early: false,
            lifted_at: 0,
        },
    )
}

/// Lifts a sanction early on the authority of a passed sanction proposal.
pub fn lift_sanction(
    sanction: &mut CountrySanction,
    lift_proposal: &Proposal,
    now: i64,
) -> (r: Result<(), GovernanceError>)
    ensures
        lift_proposal.status != ProposalStatus::Passed ==> r == Err::<(), GovernanceError>(
            GovernanceError::ProposalNotPassed,
        ),
        lift_proposal.status == ProposalStatus::Passed && lift_proposal.proposal_type
            != ProposalType::Sanction ==> r == Err::<(), GovernanceError>(
            GovernanceError::WrongProposalType,
        ),
        r is Err ==> *final(sanction) == *old(sanction),
        lift_proposal.status == ProposalStatus::Passed && lift_proposal.proposal_type
            == ProposalType::Sanction ==> r is Ok && *final(sanction) == (CountrySanction {
            is_active: false,
            lifted_early: true,
            lifted_at: now,
            ..*old(sanction)
        }),
{
    if lift_proposal.status != ProposalStatus::Passed {
        return Err(GovernanceError::ProposalNotPassed);
    }
    if lift_proposal.proposal_type != ProposalType::Sanction {
        return Err(GovernanceError::WrongProposalType);
    }
    sanction.is_active = false;
    sanction.lifted_early = true;
    sanction.lifted_at = now;
    Ok(())
}

/// Applies new fee parameters on the authority of a passed constitutional
/// proposal, once they are within bounds: a base rate of at most 100 basis
/// points and a burn share of at most 100 percent.
pub fn update_fee_parameters(
    fee_state: &mut FeeState,
    proposal: &Proposal,
    new_base_rate: u64,
    new_burn_pct: u64,
    now: i64,
) -> (r: Result<(), GovernanceError>)
    ensures
        proposal.status != ProposalStatus::Passed ==> r == Err::<(), GovernanceError>(
            GovernanceError::ProposalNotPassed,
        ),
        proposal.status == ProposalStatus::Passed && proposal.proposal_type
            != ProposalType::Constitutional ==> r == Err::<(), GovernanceError>(
            GovernanceError::WrongProposalType,
        ),
        proposal.status == ProposalStatus::Passed && proposal.proposal_type
            == ProposalType::Constitutional && new_base_rate > MAX_BASE_FEE_RATE ==> r == Err::<
            (),
            GovernanceError,
        >(GovernanceError::FeeTooHigh),
        proposal.status == ProposalStatus::Passed && proposal.proposal_type
            == ProposalType::Constitutional && new_base_rate <= MAX_BASE_FEE_RATE && new_burn_pct
            > MAX_BURN_PERCENTAGE ==> r == Err::<(), GovernanceError>(
            GovernanceError::InvalidBurnPercentage,
        ),
        r is Err ==> *final(fee_state) == *old(fee_state),
        proposal.status == ProposalStatus::Passed && proposal.proposal_type
            == ProposalType::Constitutional && new_base_rate <= MAX_BASE_FEE_RATE && new_burn_pct
            <= MAX_BURN_PERCENTAGE ==> r is Ok && *final(fee_state) == (FeeState {
            base_fee_rate: new_base_rate,
            burn_percentage: new_burn_pct,
            last_updated: now,
            ..*old(fee_state)
        }),
{
    if proposal.status != ProposalStatus::Passed {
        return Err(GovernanceError::ProposalNotPassed);
    }
    if proposal.proposal_type != ProposalType::Constitutional {
        return Err(GovernanceError::WrongProposalType);
    }
    if new_base_rate > MAX_BASE_FEE_RATE {
        return Err(GovernanceError::FeeTooHigh);
    }
    if new_burn_pct > MAX_BURN_PERCENTAGE {
        return Err(GovernanceError::InvalidBurnPercentage);
    }
    fee_state.base_fee_rate = new_base_rate;
    fee_state.burn_percentage = new_burn_pct;
    fee_state.last_updated = now;
    Ok(())
}

} // verus!
