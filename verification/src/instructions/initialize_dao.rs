//! Creating a DAO: one record at its derived address, with a zeroed
//! proposal counter.

use vstd::prelude::*;

use crate::address::Address;
use crate::address::AddressView;
use crate::address::copy_bytes;
use crate::address::dao_address;
use crate::address::derive_dao_address;
use crate::address::result_view;
use crate::errors::QuadraticVotingError;
use crate::ledger::Ledger;
use crate::ledger::ledger_inv;
use crate::state::Dao;
use crate::state::DaoView;
use crate::state::Record;
use crate::state::RecordView;

verus! {

/// What `init_dao` does to a ledger `m`: the ledger afterwards, and the
/// operation's outcome. A DAO with the same (authority, name) pair already
/// present fails the call and leaves the ledger as it was.
pub open spec fn init_dao_step(m: Map<AddressView, RecordView>, authority: u64, name: Seq<u8>) -> (
    Map<AddressView, RecordView>,
    Result<AddressView, QuadraticVotingError>,
) {
    let a = dao_address(authority, name);
    if m.contains_key(a) {
        (m, Err(QuadraticVotingError::SlotOccupied))
    } else {
        (
            m.insert(a, RecordView::Dao(DaoView { name, authority, proposal_count: 0 })),
            Ok(a),
        )
    }
}

/// A successful `init_dao` preserves the ledger invariant.
pub proof fn lemma_init_dao_step_inv(
    m: Map<AddressView, RecordView>,
    authority: u64,
    name: Seq<u8>,
)
    requires
        ledger_inv(m),
    ensures
        ledger_inv(init_dao_step(m, authority, name).0),
{
    let a = dao_address(authority, name);
    if !m.contains_key(a) {
        let m1 = init_dao_step(m, authority, name).0;
        assert forall|p: AddressView| #[trigger] m1.contains_key(p) && p is Proposal implies
            m1.contains_key(crate::ledger::dao_of_proposal(p)) && p->Proposal_index < m1[
            crate::ledger::dao_of_proposal(p)].as_dao().proposal_count by {
            assert(m.contains_key(p));
        }
    }
}

/// The accounts an `init_dao` call runs against: the signing creator.
pub struct InitializeDao {
    /// The creator; becomes the DAO's authority.
    pub authority: u64,
    /// The DAO's name: non-empty, at most 500 bytes, immutable afterwards.
    pub name: Vec<u8>,
}

impl InitializeDao {
    /// Creates the DAO record at derive("dao", authority, name) with a
    /// zeroed proposal counter; fails with `SlotOccupied`, touching nothing,
    /// when a DAO with the same (authority, name) pair already exists.
    pub fn init_dao(&self, ledger: &mut Ledger) -> (r: Result<Address, QuadraticVotingError>)
        requires
            old(ledger).wf(),
            ledger_inv(old(ledger)@),
            1 <= self.name@.len() <= 500,
        ensures
            final(ledger).wf(),
            ledger_inv(final(ledger)@),
            final(ledger)@ == init_dao_step(old(ledger)@, self.authority, self.name@).0,
            result_view(r) == init_dao_step(old(ledger)@, self.authority, self.name@).1,
    {
        let addr = derive_dao_address(self.authority, &self.name);
        let record = Record::Dao(
            Dao { name: copy_bytes(&self.name), authority: self.authority, proposal_count: 0 },
        );
        proof {
            lemma_init_dao_step_inv(ledger@, self.authority, self.name@);
        }
        match ledger.create(addr.dup(), record) {
            Ok(_) => Ok(addr),
            Err(e) => Err(e),
        }
    }
}

} // verus!
