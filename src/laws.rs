use crate::address::Address;
use crate::error::GovernanceError;
use crate::proposal::{
    spec_decide, spec_finalize, BondDestination, Proposal, ProposalRegistry, ProposalStatus,
    ProposerState,
};
use crate::voting::{has_vote, keys_unique, spec_vote, tallies_match, tally, VoteRecord};
use vstd::prelude::*;

verus! {

/// Bond conservation: a finalization that succeeds settles the whole bond
/// recorded at creation, a positive amount, exactly once and to exactly one
/// destination (the proposer when participation reached half the quorum, the
/// treasury otherwise); the registry's running totals grow by exactly that
/// amount, on one side only, where they do not saturate. A refused
/// finalization moves nothing.
pub proof fn lemma_bond_conservation(
    p: Proposal,
    s: ProposerState,
    g: ProposalRegistry,
    now: i64,
)
    requires
        p.wf(),
    ensures
        ({
            let (p2, s2, g2, r) = spec_finalize(p, s, g, now);
            let refund = spec_decide(
                p.votes_yes as int,
                p.votes_no as int,
                p.quorum_required as int,
                p.approval_threshold as int,
            ).return_bond;
            &&& r is Ok ==> {
                &&& r->Ok_0.amount == p.bond_amount
                &&& r->Ok_0.amount > 0
                &&& !p.bond_resolved && p2.bond_resolved
                &&& p2.bond_amount == p.bond_amount
                &&& (r->Ok_0.destination == BondDestination::Proposer) == refund
                &&& (r->Ok_0.destination == BondDestination::Treasury) == !refund
                &&& (refund ==> g2.total_bonds_forfeited == g.total_bonds_forfeited)
                &&& (!refund ==> g2.total_bonds_returned == g.total_bonds_returned)
                &&& (g.total_bonds_returned + g.total_bonds_forfeited + p.bond_amount <= u64::MAX
                    ==> g2.total_bonds_returned + g2.total_bonds_forfeited
                    == g.total_bonds_returned + g.total_bonds_forfeited + p.bond_amount)
            }
            &&& r is Err ==> p2 == p && s2 == s && g2 == g
        }),
{
}

/// Terminal states are final: once a finalization has succeeded, finalizing
/// the same proposal again, at any time and with any proposer record and
/// registry, is refused as not active and changes nothing.
pub proof fn lemma_finalize_terminal(
    p: Proposal,
    s: ProposerState,
    g: ProposalRegistry,
    now: i64,
    s_again: ProposerState,
    g_again: ProposalRegistry,
    now_again: i64,
)
    ensures
        ({
            let (p2, s2, g2, r) = spec_finalize(p, s, g, now);
            r is Ok ==> p2.status != ProposalStatus::Active && spec_finalize(
                p2,
                s_again,
                g_again,
                now_again,
            ) == (p2, s_again, g_again, Err::<crate::proposal::BondTransfer, GovernanceError>(
                GovernanceError::ProposalNotActive,
            ))
        }),
{
}

/// Vote uniqueness: casting keeps at most one record per (voter, proposal)
/// key, and once a voter's vote on a proposal has been recorded, any later
/// vote by that voter on a proposal with that id is refused and changes
/// neither the ledger nor the tallies.
pub proof fn lemma_vote_unique(
    ledger: Seq<VoteRecord>,
    p: Proposal,
    voter: Address,
    voter_verified: bool,
    choice: u8,
    now: i64,
    q: Proposal,
    verified_again: bool,
    choice_again: u8,
    now_again: i64,
)
    requires
        keys_unique(ledger),
        q.id == p.id,
    ensures
        ({
            let (l2, p2, r) = spec_vote(ledger, p, voter, voter_verified, choice, now);
            let (l3, q3, r3) = spec_vote(l2, q, voter, verified_again, choice_again, now_again);
            &&& keys_unique(l2)
            &&& r is Ok ==> r3 is Err && l3 == l2 && q3 == q
        }),
{
    let (l2, p2, r) = spec_vote(ledger, p, voter, voter_verified, choice, now);
    if r is Ok {
        let last = ledger.len() as int;
        assert(l2[last].voter == voter && l2[last].proposal_id == q.id);
        assert(has_vote(l2, voter, q.id));
        assert forall|i: int, j: int|
            0 <= i < j < l2.len() implies !(#[trigger] l2[i].voter == #[trigger] l2[j].voter
                && l2[i].proposal_id == l2[j].proposal_id) by {
            if j == last {
                if l2[i].voter == l2[j].voter && l2[i].proposal_id == l2[j].proposal_id {
                    assert(ledger[i].voter == voter && ledger[i].proposal_id == p.id);
                    assert(has_vote(ledger, voter, p.id));
                }
            } else {
                assert(ledger[i] == l2[i] && ledger[j] == l2[j]);
            }
        }
    }
}

/// The parts of a proposal fixed at creation: its identity, payload, bond
/// and the rule it is voted under.
pub open spec fn same_snapshot(a: Proposal, b: Proposal) -> bool {
    &&& a.id == b.id
    &&& a.proposer == b.proposer
    &&& a.proposal_type == b.proposal_type
    &&& a.title == b.title
    &&& a.description_hash == b.description_hash
    &&& a.bond_amount == b.bond_amount
    &&& a.quorum_required == b.quorum_required
    &&& a.approval_threshold == b.approval_threshold
    &&& a.created_at == b.created_at
    &&& a.voting_ends_at == b.voting_ends_at
    &&& a.treasury_amount == b.treasury_amount
    &&& a.treasury_recipient == b.treasury_recipient
    &&& a.sanction_country == b.sanction_country
    &&& a.sanction_ubi_pct == b.sanction_ubi_pct
}

/// Neither voting nor finalizing changes what was fixed at creation; voting
/// never changes the status, and finalizing a proposal that has left
/// `Active` changes nothing, so the status only ever moves from `Active` to
/// a terminal state.
pub proof fn lemma_snapshot_and_status(
    ledger: Seq<VoteRecord>,
    p: Proposal,
    voter: Address,
    voter_verified: bool,
    choice: u8,
    now: i64,
    s: ProposerState,
    g: ProposalRegistry,
    now_final: i64,
)
    ensures
        ({
            let (l2, p2, r) = spec_vote(ledger, p, voter, voter_verified, choice, now);
            same_snapshot(p, p2) && p2.status == p.status && p2.bond_resolved == p.bond_resolved
        }),
        ({
            let (p3, s3, g3, r3) = spec_finalize(p, s, g, now_final);
            &&& same_snapshot(p, p3)
            &&& p.status != ProposalStatus::Active ==> p3 == p
            &&& r3 is Ok ==> p.status == ProposalStatus::Active && p3.status
                != ProposalStatus::Active && p3.bond_resolved
        }),
{
}

/// Tallies count records: where a proposal's tallies are the counts of its
/// records in the ledger, they still are after a vote, whatever its outcome;
/// with the record invariant, `total_voters` is then the number of distinct
/// voters recorded on the proposal.
pub proof fn lemma_tallies_count_records(
    ledger: Seq<VoteRecord>,
    p: Proposal,
    voter: Address,
    voter_verified: bool,
    choice: u8,
    now: i64,
)
    requires
        tallies_match(ledger, p),
        p.wf(),
        p.total_voters < u64::MAX,
    ensures
        ({
            let (l2, p2, r) = spec_vote(ledger, p, voter, voter_verified, choice, now);
            tallies_match(l2, p2)
        }),
{
    let (l2, p2, r) = spec_vote(ledger, p, voter, voter_verified, choice, now);
    if r is Ok {
        assert(l2.drop_last() =~= ledger);
        assert(tally(l2, p.id, 0) == tally(ledger, p.id, 0) + if choice == 0 { 1nat } else { 0nat });
        assert(tally(l2, p.id, 1) == tally(ledger, p.id, 1) + if choice == 1 { 1nat } else { 0nat });
        assert(tally(l2, p.id, 2) == tally(ledger, p.id, 2) + if choice == 2 { 1nat } else { 0nat });
    }
}

} // verus!
