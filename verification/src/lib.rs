//! A small governance ledger with quadratic voting.
//!
//! An authority creates a voting organization (a DAO), raises proposals under
//! it, and token holders cast votes whose recorded weight is the floor of the
//! square root of their token holding. Every entity lives at an address
//! derived deterministically from its seeds, and creating a record at an
//! occupied address fails, which is what makes casting a second vote on the
//! same proposal structurally impossible.
//!
//! The host around this library supplies the external collaborators: caller
//! identity, persistence, and the token-balance oracle whose point-in-time
//! snapshot is handed to [`vote`] as a plain number.

use vstd::prelude::*;

pub mod address;
pub mod credits;
pub mod errors;
pub mod instructions;
pub mod laws;
pub mod ledger;
pub mod state;

use crate::address::Address;
use crate::address::result_view;
use crate::errors::QuadraticVotingError;
use crate::instructions::initialize_dao::InitializeDao;
use crate::instructions::initialize_dao::init_dao_step;
use crate::instructions::initialize_proposal::InitializeProposal;
use crate::instructions::initialize_proposal::init_proposal_step;
use crate::instructions::vote::CastVote;
use crate::instructions::vote::cast_vote_step;
use crate::ledger::Ledger;
use crate::ledger::ledger_inv;
use crate::state::VoteType;

verus! {

/// Creates a DAO for `authority` under `name`; see
/// [`InitializeDao::init_dao`].
pub fn initialize_dao(ledger: &mut Ledger, authority: u64, name: Vec<u8>) -> (r: Result<
    Address,
    QuadraticVotingError,
>)
    requires
        old(ledger).wf(),
        ledger_inv(old(ledger)@),
        1 <= name@.len() <= 500,
    ensures
        final(ledger).wf(),
        ledger_inv(final(ledger)@),
        final(ledger)@ == init_dao_step(old(ledger)@, authority, name@).0,
        result_view(r) == init_dao_step(old(ledger)@, authority, name@).1,
{
    let accounts = InitializeDao { authority, name };
    accounts.init_dao(ledger)
}

/// Raises a proposal under the DAO at `dao_account`, signed by `signer`;
/// see [`InitializeProposal::init_proposal`].
pub fn initialize_proposal(
    ledger: &mut Ledger,
    signer: u64,
    dao_account: Address,
    subject: Vec<u8>,
    metadata: Vec<u8>,
    authority: u64,
) -> (r: Result<Address, QuadraticVotingError>)
    requires
        old(ledger).wf(),
        ledger_inv(old(ledger)@),
        dao_account@ is Dao,
        old(ledger)@.contains_key(dao_account@),
        old(ledger)@[dao_account@].as_dao().proposal_count < u64::MAX,
    ensures
        final(ledger).wf(),
        ledger_inv(final(ledger)@),
        final(ledger)@ == init_proposal_step(
            old(ledger)@,
            dao_account@,
            signer,
            subject@,
            metadata@,
            authority,
        ).0,
        result_view(r) == init_proposal_step(
            old(ledger)@,
            dao_account@,
            signer,
            subject@,
            metadata@,
            authority,
        ).1,
{
    let accounts = InitializeProposal { authority: signer, dao_account };
    accounts.init_proposal(ledger, subject, metadata, authority)
}

/// Casts `voter`'s vote on the proposal at `proposal`, weighted by the
/// oracle's balance snapshot; see [`CastVote::cast_vote`].
pub fn vote(
    ledger: &mut Ledger,
    voter: u64,
    proposal: Address,
    token_balance: u64,
    vote_type: VoteType,
) -> (r: Result<Address, QuadraticVotingError>)
    requires
        old(ledger).wf(),
        ledger_inv(old(ledger)@),
        proposal@ is Proposal,
        old(ledger)@.contains_key(proposal@),
        vote_type is Yes ==> old(ledger)@[proposal@].as_proposal().yes_vote_count < u64::MAX,
        vote_type is No ==> old(ledger)@[proposal@].as_proposal().no_vote_count < u64::MAX,
    ensures
        final(ledger).wf(),
        ledger_inv(final(ledger)@),
        final(ledger)@ == cast_vote_step(old(ledger)@, proposal@, voter, vote_type, token_balance).0,
        result_view(r) == cast_vote_step(
            old(ledger)@,
            proposal@,
            voter,
            vote_type,
            token_balance,
        ).1,
{
    let accounts = CastVote { voter, proposal, token_balance };
    accounts.cast_vote(ledger, vote_type)
}

} // verus!
