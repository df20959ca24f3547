//! The error taxonomy of the voting engine.
//!
//! Every failure surfaces one of these specific kinds, so callers can tell
//! bad input from "already exists" from "not allowed". All errors are
//! synchronous and non-retryable; no operation leaves partial state behind.

use vstd::prelude::*;

verus! {

/// The reasons an engine operation can fail.
#[derive(Clone, Copy, Debug, PartialEq, Eq, Structural)]
pub enum QuadraticVotingError {
    /// The caller is not the authority the operation demands.
    Unauthorized,
    /// Reserved for future proposal-counter overflow or mismatch checks.
    InvalidProposalCount,
    /// A proposal subject longer than the allowed maximum.
    SubjectTooLong,
    /// Proposal metadata longer than the allowed maximum.
    MetadataTooLong,
    /// A proposal subject with no bytes at all.
    EmptySubject,
    /// A record already sits at the derived address; creation never overwrites.
    SlotOccupied,
}

} // verus!
