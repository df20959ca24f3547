//! Deterministic addressing: every entity lives at an address computed from
//! a namespace tag and the full, ordered chain of seeds above it.
//!
//! An address here simply is that seed chain, so identical inputs always
//! yield the identical address and structurally distinct inputs always yield
//! distinct addresses. The ledger's insert-if-absent rule on these addresses
//! is the uniqueness constraint the engine builds on: it is what stops a DAO
//! from being created twice and a voter from voting twice on one proposal.

use vstd::prelude::*;

use crate::errors::QuadraticVotingError;

verus! {

/// A storage address: a namespace tag together with its seed chain.
pub enum Address {
    /// derive("dao", creator identity, dao name).
    Dao { authority: u64, name: Vec<u8> },
    /// derive("proposal", dao address, sequence number at creation).
    Proposal { authority: u64, name: Vec<u8>, index: u64 },
    /// derive("vote", proposal address, voter identity).
    Vote { authority: u64, name: Vec<u8>, index: u64, voter: u64 },
}

/// The mathematical value of an [`Address`].
pub enum AddressView {
    Dao { authority: u64, name: Seq<u8> },
    Proposal { authority: u64, name: Seq<u8>, index: u64 },
    Vote { authority: u64, name: Seq<u8>, index: u64, voter: u64 },
}

impl View for Address {
    type V = AddressView;

    open spec fn view(&self) -> AddressView {
        match self {
            Address::Dao { authority, name } => AddressView::Dao {
                authority: *authority,
                name: name@,
            },
            Address::Proposal { authority, name, index } => AddressView::Proposal {
                authority: *authority,
                name: name@,
                index: *index,
            },
            Address::Vote { authority, name, index, voter } => AddressView::Vote {
                authority: *authority,
                name: name@,
                index: *index,
                voter: *voter,
            },
        }
    }
}

/// The address of the DAO a given creator makes under a given name.
pub open spec fn dao_address(authority: u64, name: Seq<u8>) -> AddressView {
    AddressView::Dao { authority, name }
}

/// The address of the proposal created under `dao` while the DAO's counter
/// stood at `index`.
pub open spec fn proposal_address(dao: AddressView, index: u64) -> AddressView
    recommends
        dao is Dao,
{
    AddressView::Proposal { authority: dao->Dao_authority, name: dao->Dao_name, index }
}

/// The address of `voter`'s vote on the proposal at `proposal`.
pub open spec fn vote_address(proposal: AddressView, voter: u64) -> AddressView
    recommends
        proposal is Proposal,
{
    AddressView::Vote {
        authority: proposal->Proposal_authority,
        name: proposal->Proposal_name,
        index: proposal->Proposal_index,
        voter,
    }
}

/// An operation's outcome, lifted to the mathematical level: the address it
/// returns on success, or the error it fails with.
pub open spec fn result_view(r: Result<Address, QuadraticVotingError>) -> Result<
    AddressView,
    QuadraticVotingError,
> {
    match r {
        Ok(a) => Ok(a@),
        Err(e) => Err(e),
    }
}

/// An independent copy of a byte string.
pub fn copy_bytes(v: &Vec<u8>) -> (r: Vec<u8>)
    ensures
        r@ == v@,
{
    let mut r: Vec<u8> = Vec::new();
    let mut i: usize = 0;
    while i < v.len()
        invariant
            i <= v.len(),
            r@ == v@.subrange(0, i as int),
        decreases v.len() - i,
    {
        r.push(v[i]);
        i = i + 1;
        proof {
            assert(v@.subrange(0, i as int) =~= v@.subrange(0, i - 1).push(v@[i - 1]));
        }
    }
    proof {
        assert(v@.subrange(0, v@.len() as int) =~= v@);
    }
    r
}

/// Whether two byte strings hold the same bytes.
pub fn bytes_eq(a: &Vec<u8>, b: &Vec<u8>) -> (r: bool)
    ensures
        r <==> a@ == b@,
{
    if a.len() != b.len() {
        return false;
    }
    let mut i: usize = 0;
    while i < a.len()
        invariant
            a@.len() == b@.len(),
            i <= a.len(),
            forall|j: int| 0 <= j < i ==> a@[j] == b@[j],
        decreases a.len() - i,
    {
        if a[i] != b[i] {
            return false;
        }
        i = i + 1;
    }
    proof {
        assert(a@ =~= b@);
    }
    true
}

impl Address {
    /// An independent copy of this address.
    pub fn dup(&self) -> (r: Address)
        ensures
            r@ == self@,
    {
        match self {
            Address::Dao { authority, name } => Address::Dao {
                authority: *authority,
                name: copy_bytes(name),
            },
            Address::Proposal { authority, name, index } => Address::Proposal {
                authority: *authority,
                name: copy_bytes(name),
                index: *index,
            },
            Address::Vote { authority, name, index, voter } => Address::Vote {
                authority: *authority,
                name: copy_bytes(name),
                index: *index,
                voter: *voter,
            },
        }
    }
}

/// Whether two addresses are the same derived address.
pub fn addr_eq(a: &Address, b: &Address) -> (r: bool)
    ensures
        r <==> a@ == b@,
{
    match (a, b) {
        (
            Address::Dao { authority: a1, name: n1 },
            Address::Dao { authority: a2, name: n2 },
        ) => *a1 == *a2 && bytes_eq(n1, n2),
        (
            Address::Proposal { authority: a1, name: n1, index: i1 },
            Address::Proposal { authority: a2, name: n2, index: i2 },
        ) => *a1 == *a2 && *i1 == *i2 && bytes_eq(n1, n2),
        (
            Address::Vote { authority: a1, name: n1, index: i1, voter: v1 },
            Address::Vote { authority: a2, name: n2, index: i2, voter: v2 },
        ) => *a1 == *a2 && *i1 == *i2 && *v1 == *v2 && bytes_eq(n1, n2),
        _ => false,
    }
}

/// Derives the address of the DAO `authority` creates under `name`.
pub fn derive_dao_address(authority: u64, name: &Vec<u8>) -> (a: Address)
    ensures
        a@ == dao_address(authority, name@),
{
    Address::Dao { authority, name: copy_bytes(name) }
}

/// Derives the address of the proposal created under the DAO at `dao` while
/// its counter stood at `index`.
pub fn derive_proposal_address(dao: &Address, index: u64) -> (a: Address)
    requires
        dao@ is Dao,
    ensures
        a@ == proposal_address(dao@, index),
{
    match dao {
        Address::Dao { authority, name } => Address::Proposal {
            authority: *authority,
            name: copy_bytes(name),
            index,
        },
        _ => unreached(),
    }
}

/// Derives the address of `voter`'s vote on the proposal at `proposal`.
pub fn derive_vote_address(proposal: &Address, voter: u64) -> (a: Address)
    requires
        proposal@ is Proposal,
    ensures
        a@ == vote_address(proposal@, voter),
{
    match proposal {
        Address::Proposal { authority, name, index } => Address::Vote {
            authority: *authority,
            name: copy_bytes(name),
            index: *index,
            voter,
        },
        _ => unreached(),
    }
}

} // verus!
