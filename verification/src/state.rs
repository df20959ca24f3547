//! The three record kinds the ledger stores, and their mathematical views.
//!
//! Identities are plain 64-bit values handed in by the surrounding host; the
//! engine only compares them and folds them into derived addresses. String
//! fields are kept as byte vectors, since every length rule of the engine is
//! a rule about bytes.

use vstd::prelude::*;

verus! {

/// A governance organization: the root namespace for its proposals.
pub struct Dao {
    /// Immutable after creation; part of the DAO's own address derivation.
    pub name: Vec<u8>,
    /// Only this identity may create proposals under the DAO.
    pub authority: u64,
    /// Starts at 0; incremented by exactly 1 per successful proposal creation.
    pub proposal_count: u64,
}

/// The mathematical value of a [`Dao`].
pub struct DaoView {
    pub name: Seq<u8>,
    pub authority: u64,
    pub proposal_count: u64,
}

impl View for Dao {
    type V = DaoView;

    open spec fn view(&self) -> DaoView {
        DaoView { name: self.name@, authority: self.authority, proposal_count: self.proposal_count }
    }
}

/// One decision item open for voting, identified inside its DAO by the
/// sequence number it was created under.
pub struct Proposal {
    /// Non-empty, at most 300 bytes.
    pub subject: Vec<u8>,
    /// Recorded creator, as supplied by the caller.
    pub authority: u64,
    /// At most 500 bytes.
    pub metadata: Vec<u8>,
    /// Number of Yes votes cast; one per vote, not weighted by credits.
    pub yes_vote_count: u64,
    /// Number of No votes cast; one per vote, not weighted by credits.
    pub no_vote_count: u64,
}

/// The mathematical value of a [`Proposal`].
pub struct ProposalView {
    pub subject: Seq<u8>,
    pub authority: u64,
    pub metadata: Seq<u8>,
    pub yes_vote_count: u64,
    pub no_vote_count: u64,
}

impl View for Proposal {
    type V = ProposalView;

    open spec fn view(&self) -> ProposalView {
        ProposalView {
            subject: self.subject@,
            authority: self.authority,
            metadata: self.metadata@,
            yes_vote_count: self.yes_vote_count,
            no_vote_count: self.no_vote_count,
        }
    }
}

/// The two directions a vote can take. A closed sum type; no extensibility.
#[derive(Clone, Copy, Debug, PartialEq, Eq, Structural)]
pub enum VoteType {
    Yes,
    No,
}

/// One cast vote: created at most once per (proposal, voter) pair and
/// immutable thereafter.
pub struct Vote {
    /// The voter's identity.
    pub authority: u64,
    /// floor(sqrt(token balance)) at cast time; recorded, not tallied.
    pub vote_credits: u64,
    pub vote_type: VoteType,
}

/// The mathematical value of a [`Vote`].
pub struct VoteView {
    pub authority: u64,
    pub vote_credits: u64,
    pub vote_type: VoteType,
}

impl View for Vote {
    type V = VoteView;

    open spec fn view(&self) -> VoteView {
        VoteView {
            authority: self.authority,
            vote_credits: self.vote_credits,
            vote_type: self.vote_type,
        }
    }
}

/// Any record the ledger can hold.
pub enum Record {
    Dao(Dao),
    Proposal(Proposal),
    Vote(Vote),
}

/// The mathematical value of a [`Record`].
pub enum RecordView {
    Dao(DaoView),
    Proposal(ProposalView),
    Vote(VoteView),
}

impl View for Record {
    type V = RecordView;

    open spec fn view(&self) -> RecordView {
        match self {
            Record::Dao(d) => RecordView::Dao(d@),
            Record::Proposal(p) => RecordView::Proposal(p@),
            Record::Vote(v) => RecordView::Vote(v@),
        }
    }
}

impl RecordView {
    /// The DAO inside, meaningful only on the `Dao` variant.
    pub open spec fn as_dao(self) -> DaoView
        recommends
            self is Dao,
    {
        self->Dao_0
    }

    /// The proposal inside, meaningful only on the `Proposal` variant.
    pub open spec fn as_proposal(self) -> ProposalView
        recommends
            self is Proposal,
    {
        self->Proposal_0
    }

    /// The vote inside, meaningful only on the `Vote` variant.
    pub open spec fn as_vote(self) -> VoteView
        recommends
            self is Vote,
    {
        self->Vote_0
    }
}

} // verus!
