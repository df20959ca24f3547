//! Casting a vote on a proposal.
//!
//! The vote record's address is derived from the proposal's address and the
//! voter's identity, so a voter gets exactly one slot per proposal: the
//! second attempt derives the same address and fails with `SlotOccupied`,
//! leaving the tally untouched. Credits are the floor of the square root of
//! the voter's token balance, recorded on the vote but deliberately not
//! applied to the tally — each vote moves its tally counter by exactly 1.

use vstd::prelude::*;

use crate::address::Address;
use crate::address::AddressView;
use crate::address::derive_vote_address;
use crate::address::result_view;
use crate::address::vote_address;
use crate::address::copy_bytes;
use crate::credits::isqrt;
use crate::credits::sqrt_floor;
use crate::errors::QuadraticVotingError;
use crate::ledger::Ledger;
use crate::ledger::dao_of_proposal;
use crate::ledger::ledger_inv;
use crate::ledger::proposal_of_vote;
use crate::state::Proposal;
use crate::state::ProposalView;
use crate::state::Record;
use crate::state::RecordView;
use crate::state::Vote;
use crate::state::VoteType;
use crate::state::VoteView;

verus! {

/// What `cast_vote` does to a ledger `m` that holds a proposal at
/// `proposal_addr`: the ledger afterwards, and the operation's outcome.
///
/// A voter who already holds the vote slot fails with `SlotOccupied` and
/// changes nothing. Otherwise the matching tally counter moves up by 1 and
/// the vote record appears, carrying floor(sqrt(balance)) credits, in one
/// atomic step.
pub open spec fn cast_vote_step(
    m: Map<AddressView, RecordView>,
    proposal_addr: AddressView,
    voter: u64,
    vote_type: VoteType,
    balance: u64,
) -> (Map<AddressView, RecordView>, Result<AddressView, QuadraticVotingError>)
    recommends
        proposal_addr is Proposal,
        m.contains_key(proposal_addr),
        m[proposal_addr] is Proposal,
{
    let va = vote_address(proposal_addr, voter);
    if m.contains_key(va) {
        (m, Err(QuadraticVotingError::SlotOccupied))
    } else {
        let p = m[proposal_addr].as_proposal();
        let p2 = ProposalView {
            subject: p.subject,
            authority: p.authority,
            metadata: p.metadata,
            yes_vote_count: if vote_type is Yes {
                (p.yes_vote_count + 1) as u64
            } else {
                p.yes_vote_count
            },
            no_vote_count: if vote_type is No {
                (p.no_vote_count + 1) as u64
            } else {
                p.no_vote_count
            },
        };
        let vote = VoteView {
            authority: voter,
            vote_credits: sqrt_floor(balance as int) as u64,
            vote_type,
        };
        (
            m.insert(proposal_addr, RecordView::Proposal(p2)).insert(va, RecordView::Vote(vote)),
            Ok(va),
        )
    }
}

/// `cast_vote` preserves the ledger invariant.
pub proof fn lemma_cast_vote_step_inv(
    m: Map<AddressView, RecordView>,
    proposal_addr: AddressView,
    voter: u64,
    vote_type: VoteType,
    balance: u64,
)
    requires
        ledger_inv(m),
        proposal_addr is Proposal,
        m.contains_key(proposal_addr),
    ensures
        ledger_inv(cast_vote_step(m, proposal_addr, voter, vote_type, balance).0),
{
    let va = vote_address(proposal_addr, voter);
    if !m.contains_key(va) {
        let m2 = cast_vote_step(m, proposal_addr, voter, vote_type, balance).0;
        assert forall|p: AddressView| #[trigger] m2.contains_key(p) && p is Proposal implies
            m2.contains_key(dao_of_proposal(p)) && p->Proposal_index < m2[
            dao_of_proposal(p)].as_dao().proposal_count by {
            assert(m.contains_key(p));
            assert(dao_of_proposal(p) is Dao);
        }
        assert forall|v: AddressView| #[trigger] m2.contains_key(v) && v is Vote implies
            m2.contains_key(proposal_of_vote(v)) by {
            if v == va {
                assert(proposal_of_vote(va) == proposal_addr);
            } else {
                assert(m.contains_key(v));
                assert(proposal_of_vote(v) is Proposal);
            }
        }
    }
}

/// The accounts a `cast_vote` call runs against: the signing voter, the
/// proposal voted on, and the point-in-time token balance the oracle
/// reported for the voter.
pub struct CastVote {
    /// The voter's identity.
    pub voter: u64,
    /// The address of the proposal being voted on.
    pub proposal: Address,
    /// The oracle's snapshot of the voter's token balance; not re-checked
    /// afterwards, not escrowed.
    pub token_balance: u64,
}

impl CastVote {
    /// Moves the tally counter matching `vote_type` up by 1 and creates the
    /// vote record at derive("vote", proposal address, voter), carrying
    /// floor(sqrt(token_balance)) credits, in one atomic step. A voter who
    /// already voted on this proposal gets `SlotOccupied` and the ledger —
    /// the tally included — stays as it was.
    pub fn cast_vote(&self, ledger: &mut Ledger, vote_type: VoteType) -> (r: Result<
        Address,
        QuadraticVotingError,
    >)
        requires
            old(ledger).wf(),
            ledger_inv(old(ledger)@),
            self.proposal@ is Proposal,
            old(ledger)@.contains_key(self.proposal@),
            vote_type is Yes ==> old(ledger)@[self.proposal@].as_proposal().yes_vote_count
                < u64::MAX,
            vote_type is No ==> old(ledger)@[self.proposal@].as_proposal().no_vote_count
                < u64::MAX,
        ensures
            final(ledger).wf(),
            ledger_inv(final(ledger)@),
            final(ledger)@ == cast_vote_step(
                old(ledger)@,
                self.proposal@,
                self.voter,
                vote_type,
                self.token_balance,
            ).0,
            result_view(r) == cast_vote_step(
                old(ledger)@,
                self.proposal@,
                self.voter,
                vote_type,
                self.token_balance,
            ).1,
    {
        proof {
            lemma_cast_vote_step_inv(
                ledger@,
                self.proposal@,
                self.voter,
                vote_type,
                self.token_balance,
            );
        }
        let va = derive_vote_address(&self.proposal, self.voter);
        match ledger.read(&va) {
            Some(_) => {
                return Err(QuadraticVotingError::SlotOccupied);
            },
            None => {},
        }
        let (subject, p_authority, metadata, yes, no) = match ledger.read(&self.proposal) {
            Some(Record::Proposal(p)) => (
                copy_bytes(&p.subject),
                p.authority,
                copy_bytes(&p.metadata),
                p.yes_vote_count,
                p.no_vote_count,
            ),
            _ => unreached(),
        };
        let credits = isqrt(self.token_balance);
        let (yes2, no2) = match vote_type {
            VoteType::Yes => (yes + 1, no),
            VoteType::No => (yes, no + 1),
        };
        ledger.write(
            &self.proposal,
            Record::Proposal(
                Proposal {
                    subject,
                    authority: p_authority,
                    metadata,
                    yes_vote_count: yes2,
                    no_vote_count: no2,
                },
            ),
        );
        match ledger.create(
            va.dup(),
            Record::Vote(Vote { authority: self.voter, vote_credits: credits, vote_type }),
        ) {
            Ok(_) => {},
            Err(_) => unreached(),
        }
        Ok(va)
    }
}

} // verus!
