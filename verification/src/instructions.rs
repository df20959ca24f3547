//! The voting engine's three operations, one module each.

pub mod initialize_dao;
pub mod initialize_proposal;
pub mod vote;
