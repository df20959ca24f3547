//! Creating a proposal under a DAO.
//!
//! The proposal's address is derived from the DAO's address and the DAO's
//! counter at creation time, and the counter moves up by exactly 1 in the
//! same atomic step — so successive proposals occupy successive slots and
//! the slot being created into is always free.

use vstd::prelude::*;

use crate::address::Address;
use crate::address::AddressView;
use crate::address::derive_proposal_address;
use crate::address::proposal_address;
use crate::address::result_view;
use crate::address::copy_bytes;
use crate::errors::QuadraticVotingError;
use crate::ledger::Ledger;
use crate::ledger::dao_of_proposal;
use crate::ledger::ledger_inv;
use crate::state::Dao;
use crate::state::DaoView;
use crate::state::Proposal;
use crate::state::ProposalView;
use crate::state::Record;
use crate::state::RecordView;

verus! {

/// What `init_proposal` does to a ledger `m` that holds a DAO at
/// `dao_addr`: the ledger afterwards, and the operation's outcome.
///
/// The checks run in order and the first failure wins: the signer must be
/// the DAO's authority, the subject must be non-empty and at most 300
/// bytes, the metadata at most 500 bytes. On success the proposal record
/// appears at the slot named by the DAO's counter, with zeroed tallies and
/// the caller-supplied authority, and the counter moves up by 1.
pub open spec fn init_proposal_step(
    m: Map<AddressView, RecordView>,
    dao_addr: AddressView,
    signer: u64,
    subject: Seq<u8>,
    metadata: Seq<u8>,
    authority: u64,
) -> (Map<AddressView, RecordView>, Result<AddressView, QuadraticVotingError>)
    recommends
        dao_addr is Dao,
        m.contains_key(dao_addr),
        m[dao_addr] is Dao,
{
    let d = m[dao_addr].as_dao();
    if signer != d.authority {
        (m, Err(QuadraticVotingError::Unauthorized))
    } else if subject.len() == 0 {
        (m, Err(QuadraticVotingError::EmptySubject))
    } else if subject.len() > 300 {
        (m, Err(QuadraticVotingError::SubjectTooLong))
    } else if metadata.len() > 500 {
        (m, Err(QuadraticVotingError::MetadataTooLong))
    } else {
        let pa = proposal_address(dao_addr, d.proposal_count);
        let prop = ProposalView {
            subject,
            authority,
            metadata,
            yes_vote_count: 0,
            no_vote_count: 0,
        };
        let d2 = DaoView {
            name: d.name,
            authority: d.authority,
            proposal_count: (d.proposal_count + 1) as u64,
        };
        (
            m.insert(pa, RecordView::Proposal(prop)).insert(dao_addr, RecordView::Dao(d2)),
            Ok(pa),
        )
    }
}

/// Under the ledger invariant, the slot a DAO's counter names is free, and
/// `init_proposal` preserves the invariant.
pub proof fn lemma_init_proposal_step_inv(
    m: Map<AddressView, RecordView>,
    dao_addr: AddressView,
    signer: u64,
    subject: Seq<u8>,
    metadata: Seq<u8>,
    authority: u64,
)
    requires
        ledger_inv(m),
        dao_addr is Dao,
        m.contains_key(dao_addr),
        m[dao_addr].as_dao().proposal_count < u64::MAX,
    ensures
        !m.contains_key(proposal_address(dao_addr, m[dao_addr].as_dao().proposal_count)),
        ledger_inv(init_proposal_step(m, dao_addr, signer, subject, metadata, authority).0),
{
    let d = m[dao_addr].as_dao();
    let pa = proposal_address(dao_addr, d.proposal_count);
    assert(dao_of_proposal(pa) == dao_addr);
    if m.contains_key(pa) {
        assert(pa->Proposal_index < m[dao_of_proposal(pa)].as_dao().proposal_count);
    }
    let step = init_proposal_step(m, dao_addr, signer, subject, metadata, authority);
    let m2 = step.0;
    if signer == d.authority && 0 < subject.len() <= 300 && metadata.len() <= 500 {
        assert forall|p: AddressView| #[trigger] m2.contains_key(p) && p is Proposal implies
            m2.contains_key(dao_of_proposal(p)) && p->Proposal_index < m2[
            dao_of_proposal(p)].as_dao().proposal_count by {
            if p == pa {
                assert(dao_of_proposal(p) == dao_addr);
            } else {
                assert(m.contains_key(p));
                assert(dao_of_proposal(p) is Dao);
            }
        }
        assert forall|v: AddressView| #[trigger] m2.contains_key(v) && v is Vote implies
            m2.contains_key(crate::ledger::proposal_of_vote(v)) by {
            assert(m.contains_key(v));
        }
    }
}

/// The accounts an `init_proposal` call runs against: the signing
/// authority and the DAO the proposal goes under.
pub struct InitializeProposal {
    /// The signer; must be the DAO's authority.
    pub authority: u64,
    /// The address of the DAO the proposal is raised under.
    pub dao_account: Address,
}

impl InitializeProposal {
    /// Creates a proposal record at derive("proposal", dao address, counter)
    /// with zeroed tallies, and moves the DAO's counter up by 1 in the same
    /// atomic step. The checks run in order, first failure wins:
    /// `Unauthorized`, then `EmptySubject`, `SubjectTooLong`,
    /// `MetadataTooLong`; a failed check leaves the ledger untouched.
    pub fn init_proposal(
        &self,
        ledger: &mut Ledger,
        subject: Vec<u8>,
        metadata: Vec<u8>,
        authority: u64,
    ) -> (r: Result<Address, QuadraticVotingError>)
        requires
            old(ledger).wf(),
            ledger_inv(old(ledger)@),
            self.dao_account@ is Dao,
            old(ledger)@.contains_key(self.dao_account@),
            old(ledger)@[self.dao_account@].as_dao().proposal_count < u64::MAX,
        ensures
            final(ledger).wf(),
            ledger_inv(final(ledger)@),
            final(ledger)@ == init_proposal_step(
                old(ledger)@,
                self.dao_account@,
                self.authority,
                subject@,
                metadata@,
                authority,
            ).0,
            result_view(r) == init_proposal_step(
                old(ledger)@,
                self.dao_account@,
                self.authority,
                subject@,
                metadata@,
                authority,
            ).1,
    {
        proof {
            lemma_init_proposal_step_inv(
                ledger@,
                self.dao_account@,
                self.authority,
                subject@,
                metadata@,
                authority,
            );
        }
        let (dao_name, dao_authority, count) = match ledger.read(&self.dao_account) {
            Some(Record::Dao(d)) => (copy_bytes(&d.name), d.authority, d.proposal_count),
            _ => unreached(),
        };
        if self.authority != dao_authority {
            return Err(QuadraticVotingError::Unauthorized);
        }
        if subject.len() == 0 {
            return Err(QuadraticVotingError::EmptySubject);
        }
        if subject.len() > 300 {
            return Err(QuadraticVotingError::SubjectTooLong);
        }
        if metadata.len() > 500 {
            return Err(QuadraticVotingError::MetadataTooLong);
        }
        let pa = derive_proposal_address(&self.dao_account, count);
        let prop = Record::Proposal(
            Proposal { subject, authority, metadata, yes_vote_count: 0, no_vote_count: 0 },
        );
        match ledger.create(pa.dup(), prop) {
            Ok(_) => {},
            Err(_) => unreached(),
        }
        ledger.write(
            &self.dao_account,
            Record::Dao(Dao { name: dao_name, authority: dao_authority, proposal_count: count + 1 }),
        );
        Ok(pa)
    }
}

} // verus!
