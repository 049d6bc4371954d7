//! A small election ledger: polls, candidates registered under a poll, and
//! votes, with at most one vote per voter per poll.
//!
//! Records are addressed by their seeds, as on a program-derived-address
//! runtime: a poll by its id, a candidate by its poll id and name, a voter
//! record by the voter's identity and the poll id.

pub mod accounts;
pub mod address;
pub mod instructions;
pub mod laws;
pub mod ledger;
pub mod store;

pub use accounts::{Candidate, Poll, VoterRecord, VotingError};
pub use address::Address;
pub use instructions::{
    initialize_candidate, initialize_poll, vote, InitializeCandidate, InitializePoll, Vote,
};
pub use ledger::Ledger;
pub use store::Account;
