use vstd::bytes::spec_u64_from_le_bytes;
use vstd::prelude::*;

verus! {

/// The category of a proposal; it fixes the bond, quorum, approval threshold
/// and voting window that the proposal is held to.
#[derive(Clone, Copy, Debug, PartialEq, Eq, Structural)]
pub enum ProposalType {
    Standard,
    Treasury,
    Constitutional,
    Sanction,
}

pub const SECONDS_PER_DAY: i64 = 86400;

/// Basis points in one whole.
pub const BPS_DENOMINATOR: u64 = 10000;

/// Base bonds, in the token's smallest unit (9 decimals).
pub const PROPOSAL_BOND_STANDARD: u64 = 20_000_000_000_000;
pub const PROPOSAL_BOND_TREASURY: u64 = 50_000_000_000_000;
pub const PROPOSAL_BOND_CONSTITUTIONAL: u64 = 100_000_000_000_000;
pub const PROPOSAL_BOND_SANCTION: u64 = 75_000_000_000_000;

/// Quorum rates, in basis points of the registered population.
pub const QUORUM_PCT_STANDARD: u64 = 100;
pub const QUORUM_PCT_TREASURY: u64 = 200;
pub const QUORUM_PCT_SANCTION: u64 = 500;
pub const QUORUM_PCT_CONSTITUTIONAL: u64 = 1000;

/// Quorum floors: the rate applied to a population of ten thousand.
pub const QUORUM_MIN_STANDARD: u64 = 100;
pub const QUORUM_MIN_TREASURY: u64 = 200;
pub const QUORUM_MIN_SANCTION: u64 = 500;
pub const QUORUM_MIN_CONSTITUTIONAL: u64 = 1000;

/// Approval thresholds, in basis points of the decisive (Yes + No) votes.
pub const APPROVAL_STANDARD: u64 = 5001;
pub const APPROVAL_TREASURY: u64 = 5001;
pub const APPROVAL_SANCTION: u64 = 6700;
pub const APPROVAL_CONSTITUTIONAL: u64 = 7500;

/// Voting windows, in seconds.
pub const VOTING_PERIOD_STANDARD: i64 = 3 * 86400;
pub const VOTING_PERIOD_TREASURY: i64 = 7 * 86400;
pub const VOTING_PERIOD_CONSTITUTIONAL: i64 = 14 * 86400;
pub const VOTING_PERIOD_SANCTION: i64 = 14 * 86400;

/// A proposer at or below this reputation may not create proposals.
pub const REP_THRESHOLD_BAN: i32 = -10;

/// Where the population count sits in the core protocol's state record:
/// three 32-byte keys, then the count as a little-endian `u64`.
pub const TOTAL_USERS_OFFSET: usize = 104;
pub const TOTAL_USERS_END: usize = 112;

pub open spec fn spec_base_bond(t: ProposalType) -> int {
    match t {
        ProposalType::Standard => PROPOSAL_BOND_STANDARD as int,
        ProposalType::Treasury => PROPOSAL_BOND_TREASURY as int,
        ProposalType::Constitutional => PROPOSAL_BOND_CONSTITUTIONAL as int,
        ProposalType::Sanction => PROPOSAL_BOND_SANCTION as int,
    }
}

pub open spec fn spec_quorum_rate(t: ProposalType) -> int {
    match t {
        ProposalType::Standard => QUORUM_PCT_STANDARD as int,
        ProposalType::Treasury => QUORUM_PCT_TREASURY as int,
        ProposalType::Constitutional => QUORUM_PCT_CONSTITUTIONAL as int,
        ProposalType::Sanction => QUORUM_PCT_SANCTION as int,
    }
}

pub open spec fn spec_quorum_floor(t: ProposalType) -> int {
    match t {
        ProposalType::Standard => QUORUM_MIN_STANDARD as int,
        ProposalType::Treasury => QUORUM_MIN_TREASURY as int,
        ProposalType::Constitutional => QUORUM_MIN_CONSTITUTIONAL as int,
        ProposalType::Sanction => QUORUM_MIN_SANCTION as int,
    }
}

pub open spec fn spec_approval_threshold(t: ProposalType) -> int {
    match t {
        ProposalType::Standard => APPROVAL_STANDARD as int,
        ProposalType::Treasury => APPROVAL_TREASURY as int,
        ProposalType::Constitutional => APPROVAL_CONSTITUTIONAL as int,
        ProposalType::Sanction => APPROVAL_SANCTION as int,
    }
}

pub open spec fn spec_voting_period(t: ProposalType) -> int {
    match t {
        ProposalType::Standard => VOTING_PERIOD_STANDARD as int,
        ProposalType::Treasury => VOTING_PERIOD_TREASURY as int,
        ProposalType::Constitutional => VOTING_PERIOD_CONSTITUTIONAL as int,
        ProposalType::Sanction => VOTING_PERIOD_SANCTION as int,
    }
}

/// `max(floor, total_users * rate / 10000)`: no ceiling.
pub open spec fn spec_quorum(total_users: int, t: ProposalType) -> int {
    let scaled = total_users * spec_quorum_rate(t) / (BPS_DENOMINATOR as int);
    if scaled > spec_quorum_floor(t) {
        scaled
    } else {
        spec_quorum_floor(t)
    }
}

/// 1 for a non-negative score, else `1 + floor(|score| / 2)`.
pub open spec fn spec_bond_multiplier(score: int) -> int {
    if score >= 0 {
        1
    } else {
        1 + (-score) / 2
    }
}

/// The bond that a proposer with this score owes for a proposal of this type.
pub open spec fn spec_required_bond(t: ProposalType, score: int) -> int {
    spec_base_bond(t) * spec_bond_multiplier(score)
}

pub open spec fn is_banned(score: int) -> bool {
    score <= REP_THRESHOLD_BAN as int
}

/// The quorum that a proposal of type `t` needs when `total_users` are registered.
pub fn calculate_quorum(total_users: u64, proposal_type: &ProposalType) -> (r: u64)
    ensures
        r == spec_quorum(total_users as int, *proposal_type),
{
    let (pct, min) = match proposal_type {
        ProposalType::Standard => (QUORUM_PCT_STANDARD, QUORUM_MIN_STANDARD),
        ProposalType::Treasury => (QUORUM_PCT_TREASURY, QUORUM_MIN_TREASURY),
        ProposalType::Sanction => (QUORUM_PCT_SANCTION, QUORUM_MIN_SANCTION),
        ProposalType::Constitutional => (QUORUM_PCT_CONSTITUTIONAL, QUORUM_MIN_CONSTITUTIONAL),
    };
    assert((total_users as u128) * (pct as u128) <= u64::MAX * 10000) by (nonlinear_arith)
        requires
            pct <= 10000,
    ;
    let wide = (total_users as u128) * (pct as u128);
    let scaled_wide = wide / (BPS_DENOMINATOR as u128);
    assert(scaled_wide <= total_users) by (nonlinear_arith)
        requires
            wide == total_users * pct,
            scaled_wide == wide / 10000,
            pct <= 10000,
    ;
    let scaled = scaled_wide as u64;
    if scaled > min {
        scaled
    } else {
        min
    }
}

/// The approval threshold, in basis points, of a proposal type.
pub fn get_approval_threshold(proposal_type: &ProposalType) -> (r: u64)
    ensures
        r == spec_approval_threshold(*proposal_type),
{
    match proposal_type {
        ProposalType::Standard => APPROVAL_STANDARD,
        ProposalType::Treasury => APPROVAL_TREASURY,
        ProposalType::Sanction => APPROVAL_SANCTION,
        ProposalType::Constitutional => APPROVAL_CONSTITUTIONAL,
    }
}

/// The length of the voting window, in seconds, of a proposal type.
pub fn get_voting_period(proposal_type: &ProposalType) -> (r: i64)
    ensures
        r == spec_voting_period(*proposal_type),
{
    match proposal_type {
        ProposalType::Standard => VOTING_PERIOD_STANDARD,
        ProposalType::Treasury => VOTING_PERIOD_TREASURY,
        ProposalType::Sanction => VOTING_PERIOD_SANCTION,
        ProposalType::Constitutional => VOTING_PERIOD_CONSTITUTIONAL,
    }
}

/// The base bond of a proposal type, before the reputation multiplier.
pub fn get_bond_amount(proposal_type: &ProposalType) -> (r: u64)
    ensures
        r == spec_base_bond(*proposal_type),
{
    match proposal_type {
        ProposalType::Standard => PROPOSAL_BOND_STANDARD,
        ProposalType::Treasury => PROPOSAL_BOND_TREASURY,
        ProposalType::Sanction => PROPOSAL_BOND_SANCTION,
        ProposalType::Constitutional => PROPOSAL_BOND_CONSTITUTIONAL,
    }
}

/// The bond multiplier for a proposer's reputation score.
pub fn bond_multiplier(score: i32) -> (r: u64)
    ensures
        r == spec_bond_multiplier(score as int),
{
    if score >= 0 {
        1
    } else {
        let magnitude: u64 = (-(score as i64)) as u64;
        1 + magnitude / 2
    }
}

/// The bond owed for a proposal of this type by a proposer with this score;
/// it saturates at `u64::MAX`, which only scores far below the ban threshold reach.
pub fn required_bond(proposal_type: &ProposalType, score: i32) -> (r: u64)
    ensures
        spec_required_bond(*proposal_type, score as int) <= u64::MAX ==> r == spec_required_bond(
            *proposal_type,
            score as int,
        ),
        spec_required_bond(*proposal_type, score as int) > u64::MAX ==> r == u64::MAX,
{
    let base = get_bond_amount(proposal_type);
    let multiplier = bond_multiplier(score);
    assert((base as u128) * (multiplier as u128) <= u64::MAX * u64::MAX) by (nonlinear_arith);
    let wide = (base as u128) * (multiplier as u128);
    if wide > (u64::MAX as u128) {
        u64::MAX
    } else {
        wide as u64
    }
}

/// The population count held in the core protocol's state record, or the
/// constitutional quorum floor where the record is too short to hold one.
pub fn read_total_users(core_state: &[u8]) -> (r: u64)
    ensures
        core_state@.len() >= TOTAL_USERS_END ==> r == spec_u64_from_le_bytes(
            core_state@.subrange(TOTAL_USERS_OFFSET as int, TOTAL_USERS_END as int),
        ),
        core_state@.len() < TOTAL_USERS_END ==> r == QUORUM_MIN_CONSTITUTIONAL,
{
    if core_state.len() >= TOTAL_USERS_END {
        let field = vstd::slice::slice_subrange(core_state, TOTAL_USERS_OFFSET, TOTAL_USERS_END);
        vstd::bytes::u64_from_le_bytes(field)
    } else {
        QUORUM_MIN_CONSTITUTIONAL
    }
}

/// Quorum never falls as the population grows: for a fixed category,
/// `quorum(total_users)` is non-decreasing in `total_users`.
pub proof fn lemma_quorum_monotonic(t: ProposalType, smaller: int, larger: int)
    requires
        0 <= smaller <= larger,
    ensures
        spec_quorum(smaller, t) <= spec_quorum(larger, t),
{
    let rate = spec_quorum_rate(t);
    assert(smaller * rate <= larger * rate) by (nonlinear_arith)
        requires
            smaller <= larger,
            rate >= 0,
    ;
    vstd::arithmetic::div_mod::lemma_div_is_ordered(smaller * rate, larger * rate, 10000);
}

} // verus!
