//! The engine's governing properties, proved once and for all over the
//! operations' own transition functions.

use vstd::prelude::*;

use crate::address::AddressView;
use crate::address::dao_address;
use crate::address::proposal_address;
use crate::address::vote_address;
use crate::errors::QuadraticVotingError;
use crate::instructions::initialize_dao::init_dao_step;
use crate::instructions::initialize_proposal::init_proposal_step;
use crate::instructions::initialize_proposal::lemma_init_proposal_step_inv;
use crate::instructions::vote::cast_vote_step;
use crate::instructions::vote::lemma_cast_vote_step_inv;
use crate::ledger::ledger_inv;
use crate::state::DaoView;
use crate::state::RecordView;
use crate::state::VoteType;

verus! {

/// Creating a DAO is a once-only event: where the first creation under an
/// (authority, name) pair succeeds, an identical second call fails with
/// `SlotOccupied` and leaves the ledger — the first DAO's record included —
/// exactly as the first call left it.
pub proof fn lemma_dao_create_once(
    m: Map<AddressView, RecordView>,
    authority: u64,
    name: Seq<u8>,
)
    requires
        !m.contains_key(dao_address(authority, name)),
    ensures
        ({
            let a = dao_address(authority, name);
            let (m1, r1) = init_dao_step(m, authority, name);
            let (m2, r2) = init_dao_step(m1, authority, name);
            &&& r1 == Ok::<AddressView, QuadraticVotingError>(a)
            &&& m1[a] == RecordView::Dao(DaoView { name, authority, proposal_count: 0 })
            &&& r2 == Err::<AddressView, QuadraticVotingError>(QuadraticVotingError::SlotOccupied)
            &&& m2 == m1
        }),
{
}

/// Distinct sequence numbers under one DAO derive distinct proposal
/// addresses: proposals can never collide on a slot.
pub proof fn lemma_proposal_addresses_distinct(dao_addr: AddressView, i: u64, j: u64)
    requires
        i != j,
    ensures
        proposal_address(dao_addr, i) != proposal_address(dao_addr, j),
{
}

/// Distinct voters derive distinct vote addresses on one proposal, and one
/// voter derives distinct addresses on distinct proposals.
pub proof fn lemma_vote_addresses_distinct(
    p1: AddressView,
    v1: u64,
    p2: AddressView,
    v2: u64,
)
    requires
        p1 is Proposal,
        p2 is Proposal,
        p1 != p2 || v1 != v2,
    ensures
        vote_address(p1, v1) != vote_address(p2, v2),
{
}

/// The ledger after `n` successive proposal creations under one DAO, all
/// with the same inputs.
pub open spec fn propose_n(
    m: Map<AddressView, RecordView>,
    dao_addr: AddressView,
    signer: u64,
    subject: Seq<u8>,
    metadata: Seq<u8>,
    authority: u64,
    n: nat,
) -> Map<AddressView, RecordView>
    decreases n,
{
    if n == 0 {
        m
    } else {
        init_proposal_step(
            propose_n(m, dao_addr, signer, subject, metadata, authority, (n - 1) as nat),
            dao_addr,
            signer,
            subject,
            metadata,
            authority,
        ).0
    }
}

/// Proposal creation is sequential and collision-free: starting from a DAO
/// whose counter stands at `c`, `n` authorized, well-formed creations all
/// succeed, each lands at the address derived from the counter value it was
/// created under — `c`, `c + 1`, ..., `c + n - 1`, pairwise distinct by
/// [`lemma_proposal_addresses_distinct`] — and the counter afterwards
/// stands at `c + n`.
pub proof fn lemma_proposal_sequence(
    m: Map<AddressView, RecordView>,
    dao_addr: AddressView,
    signer: u64,
    subject: Seq<u8>,
    metadata: Seq<u8>,
    authority: u64,
    n: nat,
)
    requires
        ledger_inv(m),
        dao_addr is Dao,
        m.contains_key(dao_addr),
        signer == m[dao_addr].as_dao().authority,
        1 <= subject.len() <= 300,
        metadata.len() <= 500,
        m[dao_addr].as_dao().proposal_count + n <= u64::MAX,
    ensures
        ({
            let c = m[dao_addr].as_dao().proposal_count;
            let r = propose_n(m, dao_addr, signer, subject, metadata, authority, n);
            &&& ledger_inv(r)
            &&& r.contains_key(dao_addr)
            &&& r[dao_addr] is Dao
            &&& r[dao_addr].as_dao().authority == m[dao_addr].as_dao().authority
            &&& r[dao_addr].as_dao().proposal_count == c + n
            &&& forall|i: int|
                c <= i < c + n ==> #[trigger] r.contains_key(proposal_address(dao_addr, i as u64))
            &&& n > 0 ==> init_proposal_step(
                propose_n(m, dao_addr, signer, subject, metadata, authority, (n - 1) as nat),
                dao_addr,
                signer,
                subject,
                metadata,
                authority,
            ).1 == Ok::<AddressView, QuadraticVotingError>(
                proposal_address(dao_addr, (c + n - 1) as u64),
            )
        }),
    decreases n,
{
    let c = m[dao_addr].as_dao().proposal_count;
    if n > 0 {
        lemma_proposal_sequence(m, dao_addr, signer, subject, metadata, authority, (n - 1) as nat);
        let mp = propose_n(m, dao_addr, signer, subject, metadata, authority, (n - 1) as nat);
        let r = propose_n(m, dao_addr, signer, subject, metadata, authority, n);
        lemma_init_proposal_step_inv(mp, dao_addr, signer, subject, metadata, authority);
        assert(mp[dao_addr].as_dao().proposal_count == c + n - 1);
        assert forall|i: int|
            c <= i < c + n implies #[trigger] r.contains_key(
            proposal_address(dao_addr, i as u64),
        ) by {
            if i < c + n - 1 {
                assert(mp.contains_key(proposal_address(dao_addr, i as u64)));
            }
        }
    }
}

/// A voter votes at most once: where a voter's first cast on a proposal
/// succeeds, a second cast by the same voter on the same proposal — with
/// any vote type and any balance — fails with `SlotOccupied` and leaves the
/// ledger, the proposal's tally included, exactly as the first cast left
/// it.
pub proof fn lemma_vote_once(
    m: Map<AddressView, RecordView>,
    proposal_addr: AddressView,
    voter: u64,
    vt1: VoteType,
    b1: u64,
    vt2: VoteType,
    b2: u64,
)
    requires
        ledger_inv(m),
        proposal_addr is Proposal,
        m.contains_key(proposal_addr),
        !m.contains_key(vote_address(proposal_addr, voter)),
        vt1 is Yes ==> m[proposal_addr].as_proposal().yes_vote_count < u64::MAX,
        vt1 is No ==> m[proposal_addr].as_proposal().no_vote_count < u64::MAX,
    ensures
        ({
            let (m1, r1) = cast_vote_step(m, proposal_addr, voter, vt1, b1);
            let (m2, r2) = cast_vote_step(m1, proposal_addr, voter, vt2, b2);
            &&& r1 == Ok::<AddressView, QuadraticVotingError>(vote_address(proposal_addr, voter))
            &&& r2 == Err::<AddressView, QuadraticVotingError>(QuadraticVotingError::SlotOccupied)
            &&& m2 == m1
            &&& m2[proposal_addr] == m1[proposal_addr]
        }),
{
}

/// The ledger after each voter of `voters`, in order, casts one vote of
/// `vote_type` on the proposal at `proposal_addr` with balance `balance`.
pub open spec fn cast_each(
    m: Map<AddressView, RecordView>,
    proposal_addr: AddressView,
    voters: Seq<u64>,
    vote_type: VoteType,
    balance: u64,
) -> Map<AddressView, RecordView>
    decreases voters.len(),
{
    if voters.len() == 0 {
        m
    } else {
        cast_vote_step(
            cast_each(m, proposal_addr, voters.drop_last(), vote_type, balance),
            proposal_addr,
            voters.last(),
            vote_type,
            balance,
        ).0
    }
}

/// Whether every cast in [`cast_each`] succeeded.
pub open spec fn cast_each_ok(
    m: Map<AddressView, RecordView>,
    proposal_addr: AddressView,
    voters: Seq<u64>,
    vote_type: VoteType,
    balance: u64,
) -> bool
    decreases voters.len(),
{
    voters.len() == 0 || {
        &&& cast_each_ok(m, proposal_addr, voters.drop_last(), vote_type, balance)
        &&& cast_vote_step(
            cast_each(m, proposal_addr, voters.drop_last(), vote_type, balance),
            proposal_addr,
            voters.last(),
            vote_type,
            balance,
        ).1 is Ok
    }
}

/// Serialized casts from pairwise distinct voters who have not voted yet
/// each succeed exactly once: every cast returns `Ok`, one vote record per
/// voter appears — at pairwise distinct addresses, by
/// [`lemma_vote_addresses_distinct`] — and the tally counter matching
/// `vote_type` moves up by exactly the number of voters.
pub proof fn lemma_distinct_voters_each_succeed(
    m: Map<AddressView, RecordView>,
    proposal_addr: AddressView,
    voters: Seq<u64>,
    vote_type: VoteType,
    balance: u64,
)
    requires
        ledger_inv(m),
        proposal_addr is Proposal,
        m.contains_key(proposal_addr),
        forall|i: int, j: int| 0 <= i < j < voters.len() ==> voters[i] != voters[j],
        forall|i: int|
            0 <= i < voters.len() ==> !m.contains_key(
                #[trigger] vote_address(proposal_addr, voters[i]),
            ),
        m[proposal_addr].as_proposal().yes_vote_count + voters.len() <= u64::MAX,
        m[proposal_addr].as_proposal().no_vote_count + voters.len() <= u64::MAX,
    ensures
        ({
            let r = cast_each(m, proposal_addr, voters, vote_type, balance);
            let p0 = m[proposal_addr].as_proposal();
            let p = r[proposal_addr].as_proposal();
            &&& ledger_inv(r)
            &&& cast_each_ok(m, proposal_addr, voters, vote_type, balance)
            &&& r.contains_key(proposal_addr)
            &&& r[proposal_addr] is Proposal
            &&& p.yes_vote_count == p0.yes_vote_count + (if vote_type is Yes {
                voters.len() as int
            } else {
                0
            })
            &&& p.no_vote_count == p0.no_vote_count + (if vote_type is No {
                voters.len() as int
            } else {
                0
            })
            &&& p.yes_vote_count + p.no_vote_count == p0.yes_vote_count + p0.no_vote_count
                + voters.len()
            &&& forall|i: int|
                0 <= i < voters.len() ==> r.contains_key(
                    #[trigger] vote_address(proposal_addr, voters[i]),
                )
            &&& forall|w: u64|
                !m.contains_key(#[trigger] vote_address(proposal_addr, w)) && !voters.contains(w)
                    ==> !r.contains_key(vote_address(proposal_addr, w))
        }),
    decreases voters.len(),
{
    if voters.len() > 0 {
        let prefix = voters.drop_last();
        let w = voters.last();
        lemma_distinct_voters_each_succeed(m, proposal_addr, prefix, vote_type, balance);
        let mp = cast_each(m, proposal_addr, prefix, vote_type, balance);
        let r = cast_each(m, proposal_addr, voters, vote_type, balance);
        lemma_cast_vote_step_inv(mp, proposal_addr, w, vote_type, balance);
        assert(!prefix.contains(w)) by {
            if prefix.contains(w) {
                let i = choose|i: int| 0 <= i < prefix.len() && prefix[i] == w;
                assert(voters[i] == voters[voters.len() - 1]);
            }
        }
        assert(!mp.contains_key(vote_address(proposal_addr, w)));
        assert forall|i: int|
            0 <= i < voters.len() implies r.contains_key(
            #[trigger] vote_address(proposal_addr, voters[i]),
        ) by {
            if i < voters.len() - 1 {
                assert(mp.contains_key(vote_address(proposal_addr, prefix[i])));
            }
        }
        assert forall|u: u64|
            !m.contains_key(#[trigger] vote_address(proposal_addr, u)) && !voters.contains(u)
                implies !r.contains_key(vote_address(proposal_addr, u)) by {
            assert(!prefix.contains(u)) by {
                if prefix.contains(u) {
                    let i = choose|i: int| 0 <= i < prefix.len() && prefix[i] == u;
                    assert(voters[i] == u);
                }
            }
            assert(!mp.contains_key(vote_address(proposal_addr, u)));
            lemma_vote_addresses_distinct(proposal_addr, u, proposal_addr, w);
        }
    }
}

} // verus!
