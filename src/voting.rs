use crate::address::Address;
use crate::error::GovernanceError;
use crate::proposal::{Proposal, ProposalStatus};
use vstd::prelude::*;

verus! {

pub const VOTE_NO: u8 = 0;
pub const VOTE_YES: u8 = 1;
pub const VOTE_ABSTAIN: u8 = 2;

/// Proof that one participant voted once on one proposal.
#[derive(Clone, Copy, Debug, PartialEq, Eq, Structural)]
pub struct VoteRecord {
    pub voter: Address,
    pub proposal_id: u64,
    /// 0 = No, 1 = Yes, 2 = Abstain.
    pub choice: u8,
    pub voted_at: i64,
}

/// Whether `records` hold a vote of `voter` on proposal `proposal_id`.
pub open spec fn has_vote(records: Seq<VoteRecord>, voter: Address, proposal_id: u64) -> bool {
    exists|i: int|
        0 <= i < records.len() && #[trigger] records[i].voter == voter && records[i].proposal_id
            == proposal_id
}

/// No two records share a (voter, proposal) key.
pub open spec fn keys_unique(records: Seq<VoteRecord>) -> bool {
    forall|i: int, j: int|
        0 <= i < j < records.len() ==> !(#[trigger] records[i].voter == #[trigger] records[j].voter
            && records[i].proposal_id == records[j].proposal_id)
}

/// How many of `records` are votes on proposal `proposal_id` with this choice.
pub open spec fn tally(records: Seq<VoteRecord>, proposal_id: u64, choice: u8) -> nat
    decreases records.len(),
{
    if records.len() == 0 {
        0
    } else {
        let last = records.last();
        tally(records.drop_last(), proposal_id, choice) + if last.proposal_id == proposal_id
            && last.choice == choice {
            1nat
        } else {
            0nat
        }
    }
}

/// A proposal's three tallies are the counts of its records in `records`.
pub open spec fn tallies_match(records: Seq<VoteRecord>, p: Proposal) -> bool {
    &&& p.votes_no == tally(records, p.id, VOTE_NO)
    &&& p.votes_yes == tally(records, p.id, VOTE_YES)
    &&& p.votes_abstain == tally(records, p.id, VOTE_ABSTAIN)
}

/// All vote records, keyed by (voter, proposal id); a record is only ever
/// added, and only where none exists for its key.
pub struct VoteLedger {
    records: Vec<VoteRecord>,
}

impl View for VoteLedger {
    type V = Seq<VoteRecord>;

    closed spec fn view(&self) -> Seq<VoteRecord> {
        self.records@
    }
}

impl VoteLedger {
    pub open spec fn wf(&self) -> bool {
        keys_unique(self@)
    }

    pub fn new() -> (r: VoteLedger)
        ensures
            r@ == Seq::<VoteRecord>::empty(),
            r.wf(),
    {
        VoteLedger { records: Vec::new() }
    }

    pub fn len(&self) -> (r: usize)
        ensures
            r == self@.len(),
    {
        self.records.len()
    }

    /// The record at position `i`, in the order the votes were cast.
    pub fn get(&self, i: usize) -> (r: VoteRecord)
        requires
            i < self@.len(),
        ensures
            r == self@[i as int],
    {
        self.records[i]
    }

    /// Whether `voter` has voted on proposal `proposal_id`.
    pub fn has_voted(&self, voter: &Address, proposal_id: u64) -> (r: bool)
        ensures
            r == has_vote(self@, *voter, proposal_id),
    {
        let mut i: usize = 0;
        while i < self.records.len()
            invariant
                i <= self.records@.len(),
                forall|k: int|
                    0 <= k < i ==> !(#[trigger] self.records@[k].voter == *voter
                        && self.records@[k].proposal_id == proposal_id),
            decreases self.records@.len() - i,
        {
            let r = &self.records[i];
            if r.voter.same_as(voter) && r.proposal_id == proposal_id {
                return true;
            }
            i = i + 1;
        }
        false
    }
}

/// Casting a vote as a transition on (ledger, proposal). It is refused,
/// changing nothing, unless the voter is verified, the proposal is `Active`,
/// `now` is before `voting_ends_at`, the choice is 0, 1 or 2, and no record
/// exists for (voter, proposal id). Otherwise the record is added and the
/// matching tally and the voter count each grow by one.
pub open spec fn spec_vote(
    ledger: Seq<VoteRecord>,
    p: Proposal,
    voter: Address,
    voter_verified: bool,
    choice: u8,
    now: i64,
) -> (Seq<VoteRecord>, Proposal, Result<(), GovernanceError>) {
    if !voter_verified {
        (ledger, p, Err(GovernanceError::VoterNotVerified))
    } else if p.status != ProposalStatus::Active {
        (ledger, p, Err(GovernanceError::ProposalNotActive))
    } else if now >= p.voting_ends_at {
        (ledger, p, Err(GovernanceError::VotingEnded))
    } else if choice > VOTE_ABSTAIN {
        (ledger, p, Err(GovernanceError::InvalidVoteChoice))
    } else if has_vote(ledger, voter, p.id) {
        (ledger, p, Err(GovernanceError::AlreadyVoted))
    } else {
        let record = VoteRecord { voter, proposal_id: p.id, choice, voted_at: now };
        let p2 = Proposal {
            votes_no: if choice == VOTE_NO {
                (p.votes_no + 1) as u64
            } else {
                p.votes_no
            },
            votes_yes: if choice == VOTE_YES {
                (p.votes_yes + 1) as u64
            } else {
                p.votes_yes
            },
            votes_abstain: if choice == VOTE_ABSTAIN {
                (p.votes_abstain + 1) as u64
            } else {
                p.votes_abstain
            },
            total_voters: (p.total_voters + 1) as u64,
            ..p
        };
        (ledger.push(record), p2, Ok(()))
    }
}

/// Casts `voter`'s vote on `proposal`; `voter_verified` is what the identity
/// registry says of the voter. A vote cannot be changed or revoked.
pub fn vote_on_proposal(
    ledger: &mut VoteLedger,
    proposal: &mut Proposal,
    voter: Address,
    voter_verified: bool,
    choice: u8,
    now: i64,
) -> (r: Result<(), GovernanceError>)
    requires
        old(ledger).wf(),
        old(proposal).wf(),
        old(proposal).total_voters < u64::MAX,
    ensures
        (final(ledger)@, *final(proposal), r) == spec_vote(
            old(ledger)@,
            *old(proposal),
            voter,
            voter_verified,
            choice,
            now,
        ),
        final(ledger).wf(),
        final(proposal).wf(),
{
    if !voter_verified {
        return Err(GovernanceError::VoterNotVerified);
    }
    if proposal.status != ProposalStatus::Active {
        return Err(GovernanceError::ProposalNotActive);
    }
    if now >= proposal.voting_ends_at {
        return Err(GovernanceError::VotingEnded);
    }
    if choice > VOTE_ABSTAIN {
        return Err(GovernanceError::InvalidVoteChoice);
    }
    if ledger.has_voted(&voter, proposal.id) {
        return Err(GovernanceError::AlreadyVoted);
    }
    let record = VoteRecord { voter, proposal_id: proposal.id, choice, voted_at: now };
    ledger.records.push(record);
    if choice == VOTE_NO {
        proposal.votes_no = proposal.votes_no + 1;
    } else if choice == VOTE_YES {
        proposal.votes_yes = proposal.votes_yes + 1;
    } else {
        proposal.votes_abstain = proposal.votes_abstain + 1;
    }
    proposal.total_voters = proposal.total_voters + 1;
    Ok(())
}

} // verus!
