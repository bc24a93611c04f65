use agora_governance::address::Address;
use agora_governance::downstream::{
    impose_sanction, lift_sanction, update_fee_parameters, FeeState, DEFAULT_SANCTION_DURATION,
};
use agora_governance::error::GovernanceError;
use agora_governance::params::{
    bond_multiplier, calculate_quorum, get_approval_threshold, get_bond_amount, get_voting_period,
    read_total_users, required_bond, ProposalType, PROPOSAL_BOND_CONSTITUTIONAL,
    PROPOSAL_BOND_SANCTION, PROPOSAL_BOND_STANDARD, PROPOSAL_BOND_TREASURY, QUORUM_MIN_CONSTITUTIONAL,
    VOTING_PERIOD_STANDARD,
};
use agora_governance::proposal::{
    create_proposal, decide_outcome, finalize_proposal, BondDestination, BondTransfer, Proposal,
    ProposalRegistry, ProposalStatus, ProposerState,
};
use agora_governance::voting::{vote_on_proposal, VoteLedger, VOTE_ABSTAIN, VOTE_NO, VOTE_YES};

const T0: i64 = 1_700_000_000;

fn proposer() -> Address {
    Address::new(7, 7)
}

fn voter(i: u128) -> Address {
    Address::new(1, i)
}

fn new_proposal(
    registry: &mut ProposalRegistry,
    state: &mut ProposerState,
    proposal_type: ProposalType,
    total_users: u64,
    sanction_ubi_pct: u8,
) -> Result<Proposal, GovernanceError> {
    create_proposal(
        registry,
        state,
        proposer(),
        proposal_type,
        [1u8; 64],
        [2u8; 32],
        0,
        Address::new(0, 0),
        *b"XYZ",
        sanction_ubi_pct,
        total_users,
        u64::MAX,
        T0,
    )
}

/// Casts `yes`, `no` and `abstain` votes from distinct voters.
fn cast(ledger: &mut VoteLedger, p: &mut Proposal, yes: u64, no: u64, abstain: u64) {
    let mut next: u128 = 0;
    for (count, choice) in [(yes, VOTE_YES), (no, VOTE_NO), (abstain, VOTE_ABSTAIN)] {
        for _ in 0..count {
            next += 1;
            assert_eq!(vote_on_proposal(ledger, p, voter(next), true, choice, T0 + 10), Ok(()));
        }
    }
}

/// Creates a Standard proposal among 10 000 participants, casts the votes,
/// and finalizes it after the window.
fn run(yes: u64, no: u64) -> (Proposal, ProposerState, ProposalRegistry, Result<BondTransfer, GovernanceError>) {
    let mut registry = ProposalRegistry::new();
    let mut state = ProposerState::new(proposer());
    let mut p = new_proposal(&mut registry, &mut state, ProposalType::Standard, 10_000, 0).unwrap();
    let mut ledger = VoteLedger::new();
    cast(&mut ledger, &mut p, yes, no, 0);
    let end = p.voting_ends_at;
    let r = finalize_proposal(&mut p, &mut state, &mut registry, end + 1);
    (p, state, registry, r)
}

#[test]
fn quorum_scales_with_population() {
    assert_eq!(calculate_quorum(10_000, &ProposalType::Standard), 100);
    assert_eq!(calculate_quorum(1_000_000, &ProposalType::Standard), 10_000);
    assert_eq!(calculate_quorum(1_000_000, &ProposalType::Treasury), 20_000);
    assert_eq!(calculate_quorum(1_000_000, &ProposalType::Sanction), 50_000);
    assert_eq!(calculate_quorum(1_000_000, &ProposalType::Constitutional), 100_000);
}

#[test]
fn quorum_floor_applies_to_small_populations() {
    assert_eq!(calculate_quorum(0, &ProposalType::Standard), 100);
    assert_eq!(calculate_quorum(50, &ProposalType::Treasury), 200);
    assert_eq!(calculate_quorum(9_999, &ProposalType::Sanction), 500);
    assert_eq!(calculate_quorum(1, &ProposalType::Constitutional), 1000);
}

#[test]
fn quorum_has_no_ceiling() {
    assert_eq!(calculate_quorum(u64::MAX, &ProposalType::Constitutional), u64::MAX / 10);
    assert_eq!(calculate_quorum(u64::MAX, &ProposalType::Standard), u64::MAX / 100);
}

#[test]
fn quorum_is_non_decreasing() {
    let sizes = [0u64, 1, 99, 10_000, 10_099, 10_100, 123_456, 1_000_000, u64::MAX / 2, u64::MAX];
    for t in [ProposalType::Standard, ProposalType::Treasury, ProposalType::Sanction, ProposalType::Constitutional] {
        for w in sizes.windows(2) {
            assert!(calculate_quorum(w[0], &t) <= calculate_quorum(w[1], &t));
        }
    }
}

#[test]
fn category_lookups() {
    assert_eq!(get_approval_threshold(&ProposalType::Standard), 5001);
    assert_eq!(get_approval_threshold(&ProposalType::Treasury), 5001);
    assert_eq!(get_approval_threshold(&ProposalType::Sanction), 6700);
    assert_eq!(get_approval_threshold(&ProposalType::Constitutional), 7500);
    assert_eq!(get_voting_period(&ProposalType::Standard), 3 * 86400);
    assert_eq!(get_voting_period(&ProposalType::Treasury), 7 * 86400);
    assert_eq!(get_voting_period(&ProposalType::Sanction), 14 * 86400);
    assert_eq!(get_voting_period(&ProposalType::Constitutional), 14 * 86400);
    assert_eq!(get_bond_amount(&ProposalType::Standard), PROPOSAL_BOND_STANDARD);
    assert_eq!(get_bond_amount(&ProposalType::Treasury), PROPOSAL_BOND_TREASURY);
    assert_eq!(get_bond_amount(&ProposalType::Sanction), PROPOSAL_BOND_SANCTION);
    assert_eq!(get_bond_amount(&ProposalType::Constitutional), PROPOSAL_BOND_CONSTITUTIONAL);
}

#[test]
fn bond_multiplier_values() {
    assert_eq!(bond_multiplier(5), 1);
    assert_eq!(bond_multiplier(0), 1);
    assert_eq!(bond_multiplier(-1), 1);
    assert_eq!(bond_multiplier(-2), 2);
    assert_eq!(bond_multiplier(-6), 4);
    assert_eq!(bond_multiplier(-9), 5);
    assert_eq!(bond_multiplier(i32::MIN), 1 + (1u64 << 30));
}

#[test]
fn required_bond_saturates() {
    assert_eq!(required_bond(&ProposalType::Treasury, 3), PROPOSAL_BOND_TREASURY);
    assert_eq!(required_bond(&ProposalType::Sanction, -4), 3 * PROPOSAL_BOND_SANCTION);
    assert_eq!(required_bond(&ProposalType::Constitutional, i32::MIN), u64::MAX);
}

#[test]
fn negative_reputation_quadruples_bond() {
    let mut registry = ProposalRegistry::new();
    let mut state = ProposerState::new(proposer());
    state.proposal_reputation = -6;
    let p = new_proposal(&mut registry, &mut state, ProposalType::Standard, 10_000, 0).unwrap();
    assert_eq!(p.bond_amount, 4 * PROPOSAL_BOND_STANDARD);
    assert_eq!(required_bond(&ProposalType::Standard, -6), 4 * PROPOSAL_BOND_STANDARD);
}

#[test]
fn create_snapshots_rule_and_allocates_ids() {
    let mut registry = ProposalRegistry::new();
    let mut state = ProposerState::new(proposer());
    let p = new_proposal(&mut registry, &mut state, ProposalType::Treasury, 1_000_000, 0).unwrap();
    assert_eq!(p.id, 1);
    assert_eq!(p.status, ProposalStatus::Active);
    assert!(!p.bond_resolved);
    assert_eq!(p.bond_amount, PROPOSAL_BOND_TREASURY);
    assert_eq!(p.quorum_required, 20_000);
    assert_eq!(p.approval_threshold, 5001);
    assert_eq!(p.created_at, T0);
    assert_eq!(p.voting_ends_at, T0 + 7 * 86400);
    assert_eq!((p.votes_yes, p.votes_no, p.votes_abstain, p.total_voters), (0, 0, 0, 0));
    assert_eq!(p.title, [1u8; 64]);
    assert_eq!(p.sanction_country, *b"XYZ");
    let q = new_proposal(&mut registry, &mut state, ProposalType::Standard, 10_000, 0).unwrap();
    assert_eq!(q.id, 2);
    assert_eq!(registry.next_proposal_id, 3);
    assert_eq!(registry.total_proposals, 2);
    assert_eq!(registry.active_proposals, 2);
    assert_eq!(state.proposals_created, 2);
}

#[test]
fn banned_proposer_cannot_create() {
    for score in [-10, -11, -50, i32::MIN] {
        let mut registry = ProposalRegistry::new();
        let mut state = ProposerState::new(proposer());
        state.proposal_reputation = score;
        let before = (registry, state);
        let r = new_proposal(&mut registry, &mut state, ProposalType::Standard, 10_000, 0);
        assert_eq!(r.unwrap_err(), GovernanceError::ProposerBanned);
        assert_eq!((registry, state), before);
    }
    let mut registry = ProposalRegistry::new();
    let mut state = ProposerState::new(proposer());
    state.proposal_reputation = -9;
    let p = new_proposal(&mut registry, &mut state, ProposalType::Standard, 10_000, 0).unwrap();
    assert_eq!(p.bond_amount, 5 * PROPOSAL_BOND_STANDARD);
}

#[test]
fn insufficient_balance_creates_nothing() {
    let mut registry = ProposalRegistry::new();
    let mut state = ProposerState::new(proposer());
    let r = create_proposal(
        &mut registry, &mut state, proposer(), ProposalType::Standard, [0u8; 64], [0u8; 32], 0,
        Address::new(0, 0), *b"AAA", 0, 10_000, PROPOSAL_BOND_STANDARD - 1, T0,
    );
    assert_eq!(r.unwrap_err(), GovernanceError::InsufficientBond);
    assert_eq!(registry, ProposalRegistry::new());
    assert_eq!(state, ProposerState::new(proposer()));
    let r = create_proposal(
        &mut registry, &mut state, proposer(), ProposalType::Standard, [0u8; 64], [0u8; 32], 0,
        Address::new(0, 0), *b"AAA", 0, 10_000, PROPOSAL_BOND_STANDARD, T0,
    );
    assert_eq!(r.unwrap().bond_amount, PROPOSAL_BOND_STANDARD);
}

#[test]
fn sanction_percentage_must_be_strictly_between_0_and_100() {
    let mut registry = ProposalRegistry::new();
    let mut state = ProposerState::new(proposer());
    for pct in [0u8, 100, 255] {
        let r = new_proposal(&mut registry, &mut state, ProposalType::Sanction, 10_000, pct);
        assert_eq!(r.unwrap_err(), GovernanceError::InvalidSanctionPercentage);
    }
    for pct in [1u8, 50, 99] {
        assert!(new_proposal(&mut registry, &mut state, ProposalType::Sanction, 10_000, pct).is_ok());
    }
    // Only sanction proposals carry a percentage.
    assert!(new_proposal(&mut registry, &mut state, ProposalType::Standard, 10_000, 0).is_ok());
}

#[test]
fn proposer_record_must_match() {
    let mut registry = ProposalRegistry::new();
    let mut state = ProposerState::new(Address::new(9, 9));
    let r = new_proposal(&mut registry, &mut state, ProposalType::Standard, 10_000, 0);
    assert_eq!(r.unwrap_err(), GovernanceError::ProposerMismatch);
}

#[test]
fn passed_proposal_refunds_and_rewards() {
    let (p, state, registry, r) = run(150, 20);
    assert_eq!(p.quorum_required, 100);
    assert_eq!(p.status, ProposalStatus::Passed);
    assert!(p.bond_resolved);
    assert_eq!(r, Ok(BondTransfer { destination: BondDestination::Proposer, amount: PROPOSAL_BOND_STANDARD }));
    assert_eq!(state.proposal_reputation, 2);
    assert_eq!(state.proposals_passed, 1);
    assert_eq!(registry.total_bonds_returned, PROPOSAL_BOND_STANDARD);
    assert_eq!(registry.total_bonds_forfeited, 0);
    assert_eq!(registry.active_proposals, 0);
}

#[test]
fn rejected_proposal_refunds() {
    let (p, state, registry, r) = run(40, 200);
    assert_eq!(p.status, ProposalStatus::Rejected);
    assert_eq!(r, Ok(BondTransfer { destination: BondDestination::Proposer, amount: PROPOSAL_BOND_STANDARD }));
    assert_eq!(state.proposal_reputation, 1);
    assert_eq!(state.proposals_rejected, 1);
    assert_eq!(registry.total_bonds_returned, PROPOSAL_BOND_STANDARD);
}

#[test]
fn low_participation_forfeits() {
    // 40 decisive votes are 40% of the quorum of 100: the 25-50% band.
    let (p, state, registry, r) = run(25, 15);
    assert_eq!(p.status, ProposalStatus::Expired);
    assert_eq!(r, Ok(BondTransfer { destination: BondDestination::Treasury, amount: PROPOSAL_BOND_STANDARD }));
    assert_eq!(state.proposal_reputation, -2);
    assert_eq!(state.proposals_expired, 1);
    assert_eq!(registry.total_bonds_forfeited, PROPOSAL_BOND_STANDARD);
    assert_eq!(registry.total_bonds_returned, 0);
}

#[test]
fn below_quarter_of_quorum_costs_three() {
    let (p, state, _, r) = run(20, 4);
    assert_eq!(p.status, ProposalStatus::Expired);
    assert_eq!(r.unwrap().destination, BondDestination::Treasury);
    assert_eq!(state.proposal_reputation, -3);
}

#[test]
fn half_of_quorum_expires_with_refund() {
    let (p, state, registry, r) = run(10, 40);
    assert_eq!(p.status, ProposalStatus::Expired);
    assert_eq!(r.unwrap().destination, BondDestination::Proposer);
    assert_eq!(state.proposal_reputation, -1);
    assert_eq!(registry.total_bonds_returned, PROPOSAL_BOND_STANDARD);
    let (_, state, _, r) = run(49, 0);
    assert_eq!(r.unwrap().destination, BondDestination::Treasury);
    assert_eq!(state.proposal_reputation, -2);
}

#[test]
fn decide_outcome_table() {
    let d = decide_outcome(0, 0, 100, 5001);
    assert_eq!((d.status, d.reputation_change, d.return_bond), (ProposalStatus::Expired, -3, false));
    let d = decide_outcome(5001, 4999, 100, 5001);
    assert_eq!((d.status, d.reputation_change, d.return_bond), (ProposalStatus::Passed, 2, true));
    let d = decide_outcome(5000, 5000, 100, 5001);
    assert_eq!((d.status, d.reputation_change, d.return_bond), (ProposalStatus::Rejected, 1, true));
    let d = decide_outcome(u64::MAX, u64::MAX, u64::MAX, 7500);
    assert_eq!(d.status, ProposalStatus::Rejected);
    let d = decide_outcome(25, 0, 100, 5001);
    assert_eq!((d.reputation_change, d.return_bond), (-2, false));
    let d = decide_outcome(24, 0, 100, 5001);
    assert_eq!((d.reputation_change, d.return_bond), (-3, false));
}

#[test]
fn abstentions_are_not_decisive() {
    let mut registry = ProposalRegistry::new();
    let mut state = ProposerState::new(proposer());
    let mut p = new_proposal(&mut registry, &mut state, ProposalType::Standard, 10_000, 0).unwrap();
    let mut ledger = VoteLedger::new();
    cast(&mut ledger, &mut p, 10, 5, 200);
    assert_eq!((p.votes_yes, p.votes_no, p.votes_abstain, p.total_voters), (10, 5, 200, 215));
    assert_eq!(ledger.len(), 215);
    let end = p.voting_ends_at;
    let r = finalize_proposal(&mut p, &mut state, &mut registry, end + 1);
    assert_eq!(r.unwrap().destination, BondDestination::Treasury);
    assert_eq!(p.status, ProposalStatus::Expired);
}

#[test]
fn second_vote_by_same_voter_fails_without_change() {
    let mut registry = ProposalRegistry::new();
    let mut state = ProposerState::new(proposer());
    let mut p = new_proposal(&mut registry, &mut state, ProposalType::Standard, 10_000, 0).unwrap();
    let mut ledger = VoteLedger::new();
    assert_eq!(vote_on_proposal(&mut ledger, &mut p, voter(1), true, VOTE_YES, T0 + 5), Ok(()));
    let r = vote_on_proposal(&mut ledger, &mut p, voter(1), true, VOTE_NO, T0 + 6);
    assert_eq!(r, Err(GovernanceError::AlreadyVoted));
    assert_eq!((p.votes_yes, p.votes_no, p.total_voters), (1, 0, 1));
    assert_eq!(ledger.len(), 1);
    let rec = ledger.get(0);
    assert_eq!((rec.voter, rec.proposal_id, rec.choice, rec.voted_at), (voter(1), p.id, VOTE_YES, T0 + 5));
    assert!(ledger.has_voted(&voter(1), p.id));
    assert!(!ledger.has_voted(&voter(2), p.id));
    // The same voter may vote on another proposal.
    let mut q = new_proposal(&mut registry, &mut state, ProposalType::Standard, 10_000, 0).unwrap();
    assert_eq!(vote_on_proposal(&mut ledger, &mut q, voter(1), true, VOTE_NO, T0 + 7), Ok(()));
    assert_eq!(ledger.len(), 2);
}

#[test]
fn vote_refusals() {
    let mut registry = ProposalRegistry::new();
    let mut state = ProposerState::new(proposer());
    let mut p = new_proposal(&mut registry, &mut state, ProposalType::Standard, 10_000, 0).unwrap();
    let mut ledger = VoteLedger::new();
    let before = p;
    assert_eq!(
        vote_on_proposal(&mut ledger, &mut p, voter(1), false, VOTE_YES, T0 + 1),
        Err(GovernanceError::VoterNotVerified)
    );
    assert_eq!(
        vote_on_proposal(&mut ledger, &mut p, voter(1), true, 3, T0 + 1),
        Err(GovernanceError::InvalidVoteChoice)
    );
    let end = p.voting_ends_at;
    assert_eq!(
        vote_on_proposal(&mut ledger, &mut p, voter(1), true, VOTE_YES, end),
        Err(GovernanceError::VotingEnded)
    );
    assert_eq!(p.total_voters, before.total_voters);
    assert_eq!(ledger.len(), 0);
    let end = p.voting_ends_at;
    assert_eq!(vote_on_proposal(&mut ledger, &mut p, voter(1), true, VOTE_YES, end - 1), Ok(()));
    let end = p.voting_ends_at;
    finalize_proposal(&mut p, &mut state, &mut registry, end + 1).unwrap();
    assert_eq!(
        vote_on_proposal(&mut ledger, &mut p, voter(2), true, VOTE_YES, T0 + 1),
        Err(GovernanceError::ProposalNotActive)
    );
}

#[test]
fn finalize_twice_fails_without_change() {
    let (mut p, mut state, mut registry, r) = run(150, 20);
    assert!(r.is_ok());
    let before = (p.status, p.votes_yes, p.votes_no, p.bond_resolved, state, registry);
    let end = p.voting_ends_at;
    let again = finalize_proposal(&mut p, &mut state, &mut registry, end + 100);
    assert_eq!(again, Err(GovernanceError::ProposalNotActive));
    assert_eq!((p.status, p.votes_yes, p.votes_no, p.bond_resolved, state, registry), before);
}

#[test]
fn finalize_waits_for_window_to_close() {
    let mut registry = ProposalRegistry::new();
    let mut state = ProposerState::new(proposer());
    let mut p = new_proposal(&mut registry, &mut state, ProposalType::Standard, 10_000, 0).unwrap();
    assert_eq!(p.voting_ends_at, T0 + VOTING_PERIOD_STANDARD);
    let end = p.voting_ends_at;
    let r = finalize_proposal(&mut p, &mut state, &mut registry, end);
    assert_eq!(r, Err(GovernanceError::VotingNotEnded));
    assert_eq!(p.status, ProposalStatus::Active);
    let mut other = ProposerState::new(Address::new(9, 9));
    let end = p.voting_ends_at;
    let r = finalize_proposal(&mut p, &mut other, &mut registry, end + 1);
    assert_eq!(r, Err(GovernanceError::ProposerMismatch));
    assert!(!p.bond_resolved);
}

#[test]
fn reputation_saturates() {
    let mut registry = ProposalRegistry::new();
    let mut state = ProposerState::new(proposer());
    state.proposal_reputation = i32::MAX - 1;
    let mut p = new_proposal(&mut registry, &mut state, ProposalType::Standard, 10_000, 0).unwrap();
    let mut ledger = VoteLedger::new();
    cast(&mut ledger, &mut p, 100, 0, 0);
    let end = p.voting_ends_at;
    finalize_proposal(&mut p, &mut state, &mut registry, end + 1).unwrap();
    assert_eq!(state.proposal_reputation, i32::MAX);
}

fn passed(proposal_type: ProposalType, pct: u8) -> Proposal {
    let mut registry = ProposalRegistry::new();
    let mut state = ProposerState::new(proposer());
    let mut p = new_proposal(&mut registry, &mut state, proposal_type, 10_000, pct).unwrap();
    let mut ledger = VoteLedger::new();
    let quorum = p.quorum_required;
    cast(&mut ledger, &mut p, quorum, 0, 0);
    let end = p.voting_ends_at;
    finalize_proposal(&mut p, &mut state, &mut registry, end + 1).unwrap();
    assert_eq!(p.status, ProposalStatus::Passed);
    p
}

#[test]
fn sanction_emission() {
    let p = passed(ProposalType::Sanction, 40);
    let s = impose_sanction(&p, T0 + 5).unwrap();
    assert_eq!(s.country_code, *b"XYZ");
    assert_eq!(s.ubi_percentage, 40);
    assert_eq!(s.imposed_at, T0 + 5);
    assert_eq!(s.expires_at, T0 + 5 + DEFAULT_SANCTION_DURATION);
    assert_eq!(s.proposal_id, p.id);
    assert!(s.is_active && !s.lifted_early);
    let again = impose_sanction(&p, T0 + 5).unwrap();
    assert_eq!((again.country_code, again.ubi_percentage, again.expires_at), (s.country_code, s.ubi_percentage, s.expires_at));

    let standard = passed(ProposalType::Standard, 0);
    assert_eq!(impose_sanction(&standard, T0).unwrap_err(), GovernanceError::WrongProposalType);
    let mut active = p;
    active.status = ProposalStatus::Active;
    assert_eq!(impose_sanction(&active, T0).unwrap_err(), GovernanceError::ProposalNotPassed);
    let mut bad = p;
    bad.sanction_ubi_pct = 100;
    assert_eq!(impose_sanction(&bad, T0).unwrap_err(), GovernanceError::InvalidSanctionPercentage);
}

#[test]
fn sanction_lifting() {
    let p = passed(ProposalType::Sanction, 40);
    let mut s = impose_sanction(&p, T0).unwrap();
    let standard = passed(ProposalType::Standard, 0);
    assert_eq!(lift_sanction(&mut s, &standard, T0 + 9), Err(GovernanceError::WrongProposalType));
    assert!(s.is_active);
    let mut rejected = p;
    rejected.status = ProposalStatus::Rejected;
    assert_eq!(lift_sanction(&mut s, &rejected, T0 + 9), Err(GovernanceError::ProposalNotPassed));
    assert_eq!(lift_sanction(&mut s, &p, T0 + 9), Ok(()));
    assert!(!s.is_active && s.lifted_early);
    assert_eq!(s.lifted_at, T0 + 9);
    assert_eq!(s.ubi_percentage, 40);
}

#[test]
fn fee_parameter_updates() {
    let mut fees = FeeState::new(T0);
    assert_eq!((fees.base_fee_rate, fees.burn_percentage), (5, 50));
    assert_eq!(
        (fees.active_multiplier, fees.normal_multiplier, fees.inactive_multiplier, fees.dormant_multiplier),
        (80, 100, 150, 200)
    );
    let c = passed(ProposalType::Constitutional, 0);
    let t = passed(ProposalType::Treasury, 0);
    let initial = fees;
    assert_eq!(update_fee_parameters(&mut fees, &t, 10, 20, T0 + 1), Err(GovernanceError::WrongProposalType));
    assert_eq!(update_fee_parameters(&mut fees, &c, 101, 20, T0 + 1), Err(GovernanceError::FeeTooHigh));
    assert_eq!(update_fee_parameters(&mut fees, &c, 100, 101, T0 + 1), Err(GovernanceError::InvalidBurnPercentage));
    let mut active = c;
    active.status = ProposalStatus::Active;
    assert_eq!(update_fee_parameters(&mut fees, &active, 10, 20, T0 + 1), Err(GovernanceError::ProposalNotPassed));
    assert_eq!(fees, initial);
    assert_eq!(update_fee_parameters(&mut fees, &c, 100, 100, T0 + 2), Ok(()));
    assert_eq!((fees.base_fee_rate, fees.burn_percentage, fees.last_updated), (100, 100, T0 + 2));
    assert_eq!(fees.dormant_multiplier, 200);
}

#[test]
fn population_read_from_core_state() {
    let mut data = vec![0u8; 120];
    data[104..112].copy_from_slice(&123_456_789u64.to_le_bytes());
    assert_eq!(read_total_users(&data), 123_456_789);
    assert_eq!(read_total_users(&data[..112]), 123_456_789);
    assert_eq!(read_total_users(&data[..111]), QUORUM_MIN_CONSTITUTIONAL);
    assert_eq!(read_total_users(&[]), QUORUM_MIN_CONSTITUTIONAL);
}

#[test]
fn address_identity() {
    let a = Address::new(1, 2);
    assert!(a.same_as(&Address::new(1, 2)));
    assert!(!a.same_as(&Address::new(2, 1)));
}

#[test]
fn well_formedness_check() {
    let mut registry = ProposalRegistry::new();
    let mut state = ProposerState::new(proposer());
    let mut p = new_proposal(&mut registry, &mut state, ProposalType::Standard, 10_000, 0).unwrap();
    assert!(p.is_well_formed());
    let mut ledger = VoteLedger::new();
    cast(&mut ledger, &mut p, 3, 2, 1);
    assert!(p.is_well_formed());
    let mut miscounted = p;
    miscounted.total_voters = 5;
    assert!(!miscounted.is_well_formed());
    let mut settled_but_active = p;
    settled_but_active.bond_resolved = true;
    assert!(!settled_but_active.is_well_formed());
    let mut no_quorum = p;
    no_quorum.quorum_required = 0;
    assert!(!no_quorum.is_well_formed());
}
