//! The ledger: the store every record lives in, keyed by derived address.
//!
//! Creation is insert-if-absent — an address that already holds a record is
//! never overwritten, and the attempt fails with `SlotOccupied`. That single
//! rule is the uniqueness constraint the whole engine leans on.
//!
//! The ledger's mathematical value is a finite map from address to record;
//! [`ledger_inv`] states the shape every reachable ledger keeps: records sit
//! at addresses of their own kind, every proposal lies below its DAO's
//! counter, and every vote points at a live proposal.

use vstd::prelude::*;

use crate::address::Address;
use crate::address::AddressView;
use crate::address::dao_address;
use crate::address::addr_eq;
use crate::errors::QuadraticVotingError;
use crate::state::Record;
use crate::state::RecordView;

verus! {

/// No two entries of `s` share an address.
spec fn unique_addrs(s: Seq<(Address, Record)>) -> bool {
    forall|i: int, j: int| 0 <= i < j < s.len() ==> s[i].0@ != s[j].0@
}

/// The map an entry sequence denotes; later entries win, though the ledger
/// never actually stores an address twice.
spec fn map_of(s: Seq<(Address, Record)>) -> Map<AddressView, RecordView>
    decreases s.len(),
{
    if s.len() == 0 {
        Map::empty()
    } else {
        map_of(s.drop_last()).insert(s.last().0@, s.last().1@)
    }
}

proof fn lemma_map_of_contains(s: Seq<(Address, Record)>, a: AddressView)
    ensures
        map_of(s).contains_key(a) <==> exists|i: int| 0 <= i < s.len() && s[i].0@ == a,
    decreases s.len(),
{
    if s.len() > 0 {
        lemma_map_of_contains(s.drop_last(), a);
        if s.last().0@ == a {
            assert(s[s.len() - 1].0@ == a);
        } else {
            if exists|i: int| 0 <= i < s.len() && s[i].0@ == a {
                let i = choose|i: int| 0 <= i < s.len() && s[i].0@ == a;
                assert(s.drop_last()[i] == s[i]);
            }
        }
    }
}

proof fn lemma_map_of_index(s: Seq<(Address, Record)>, i: int)
    requires
        0 <= i < s.len(),
        forall|j: int| i < j < s.len() ==> s[j].0@ != s[i].0@,
    ensures
        map_of(s).contains_key(s[i].0@),
        map_of(s)[s[i].0@] == s[i].1@,
    decreases s.len(),
{
    if i < s.len() - 1 {
        assert(forall|j: int|
            i < j < s.drop_last().len() ==> s.drop_last()[j].0@ != s.drop_last()[i].0@);
        lemma_map_of_index(s.drop_last(), i);
        assert(s.drop_last()[i] == s[i]);
    }
}

proof fn lemma_map_of_update(s: Seq<(Address, Record)>, i: int, e: (Address, Record))
    requires
        0 <= i < s.len(),
        unique_addrs(s),
        e.0@ == s[i].0@,
    ensures
        map_of(s.update(i, e)) == map_of(s).insert(e.0@, e.1@),
    decreases s.len(),
{
    let su = s.update(i, e);
    if i == s.len() - 1 {
        assert(su.drop_last() =~= s.drop_last());
        assert(map_of(su) =~= map_of(s).insert(e.0@, e.1@));
    } else {
        assert(su.drop_last() =~= s.drop_last().update(i, e));
        assert(s.drop_last()[i] == s[i]);
        lemma_map_of_update(s.drop_last(), i, e);
        assert(s.last().0@ != e.0@);
        assert(su.last() == s.last());
        assert(map_of(su) =~= map_of(s).insert(e.0@, e.1@));
    }
}

/// The store itself. Its value, written `ledger@`, is a finite map from
/// derived address to record.
pub struct Ledger {
    entries: Vec<(Address, Record)>,
}

impl View for Ledger {
    type V = Map<AddressView, RecordView>;

    closed spec fn view(&self) -> Map<AddressView, RecordView> {
        map_of(self.entries@)
    }
}

impl Ledger {
    /// Each address holds at most one record.
    pub closed spec fn wf(self) -> bool {
        unique_addrs(self.entries@)
    }

    /// An empty ledger.
    pub fn new() -> (r: Ledger)
        ensures
            r@ == Map::<AddressView, RecordView>::empty(),
            r.wf(),
    {
        Ledger { entries: Vec::new() }
    }

    /// The position of the entry at `addr`, if one exists.
    fn find(&self, addr: &Address) -> (r: Option<usize>)
        ensures
            match r {
                Some(i) => i < self.entries@.len() && self.entries@[i as int].0@ == addr@,
                None => forall|i: int| 0 <= i < self.entries@.len() ==> self.entries@[i].0@ != addr@,
            },
    {
        let mut i: usize = 0;
        while i < self.entries.len()
            invariant
                i <= self.entries@.len(),
                forall|j: int| 0 <= j < i ==> self.entries@[j].0@ != addr@,
            decreases self.entries@.len() - i,
        {
            if addr_eq(&self.entries[i].0, addr) {
                return Some(i);
            }
            i = i + 1;
        }
        None
    }

    /// Creates a record at `addr`, or fails with `SlotOccupied` — never
    /// overwriting — when the address already holds one.
    pub fn create(&mut self, addr: Address, rec: Record) -> (r: Result<(), QuadraticVotingError>)
        requires
            old(self).wf(),
        ensures
            final(self).wf(),
            old(self)@.contains_key(addr@) ==> r == Err::<(), QuadraticVotingError>(
                QuadraticVotingError::SlotOccupied,
            ) && final(self)@ == old(self)@,
            !old(self)@.contains_key(addr@) ==> r == Ok::<(), QuadraticVotingError>(())
                && final(self)@ == old(self)@.insert(addr@, rec@),
    {
        proof {
            lemma_map_of_contains(self.entries@, addr@);
        }
        match self.find(&addr) {
            Some(_) => Err(QuadraticVotingError::SlotOccupied),
            None => {
                let ghost s0 = self.entries@;
                self.entries.push((addr, rec));
                proof {
                    assert(self.entries@.drop_last() =~= s0);
                }
                Ok(())
            },
        }
    }

    /// The record at `addr`, if one exists.
    pub fn read(&self, addr: &Address) -> (r: Option<&Record>)
        requires
            self.wf(),
        ensures
            match r {
                Some(rec) => self@.contains_key(addr@) && rec@ == self@[addr@],
                None => !self@.contains_key(addr@),
            },
    {
        proof {
            lemma_map_of_contains(self.entries@, addr@);
        }
        match self.find(addr) {
            Some(i) => {
                proof {
                    lemma_map_of_index(self.entries@, i as int);
                }
                Some(&self.entries[i].1)
            },
            None => None,
        }
    }

    /// Replaces the record at an address that already holds one.
    pub fn write(&mut self, addr: &Address, rec: Record)
        requires
            old(self).wf(),
            old(self)@.contains_key(addr@),
        ensures
            final(self).wf(),
            final(self)@ == old(self)@.insert(addr@, rec@),
    {
        proof {
            lemma_map_of_contains(self.entries@, addr@);
        }
        match self.find(addr) {
            Some(i) => {
                let ghost s0 = self.entries@;
                let e = (addr.dup(), rec);
                proof {
                    lemma_map_of_update(s0, i as int, (e.0, e.1));
                }
                self.entries.set(i, e);
            },
            None => unreached(),
        }
    }
}

/// A record's kind agrees with the namespace of the address it sits at.
pub open spec fn record_matches(a: AddressView, r: RecordView) -> bool {
    match a {
        AddressView::Dao { .. } => r is Dao,
        AddressView::Proposal { .. } => r is Proposal,
        AddressView::Vote { .. } => r is Vote,
    }
}

/// The address of the DAO a proposal address was derived from.
pub open spec fn dao_of_proposal(a: AddressView) -> AddressView
    recommends
        a is Proposal,
{
    dao_address(a->Proposal_authority, a->Proposal_name)
}

/// The address of the proposal a vote address was derived from.
pub open spec fn proposal_of_vote(a: AddressView) -> AddressView
    recommends
        a is Vote,
{
    AddressView::Proposal { authority: a->Vote_authority, name: a->Vote_name, index: a->Vote_index }
}

/// The invariant every reachable ledger keeps.
///
/// - every record sits at an address of its own kind;
/// - every proposal's sequence number lies strictly below its DAO's current
///   counter — so the address the next proposal will be created at is free;
/// - every vote points at a proposal that exists.
pub open spec fn ledger_inv(m: Map<AddressView, RecordView>) -> bool {
    &&& forall|a: AddressView| #[trigger] m.contains_key(a) ==> record_matches(a, m[a])
    &&& forall|a: AddressView|
        #[trigger] m.contains_key(a) && a is Proposal ==> m.contains_key(dao_of_proposal(a))
            && a->Proposal_index < m[dao_of_proposal(a)].as_dao().proposal_count
    &&& forall|a: AddressView|
        #[trigger] m.contains_key(a) && a is Vote ==> m.contains_key(proposal_of_vote(a))
}

} // verus!
