//! Core of an on-chain governance program: proposal lifecycle state machine,
//! weighted vote tallying with early tipping, and timelocked, at-most-once
//! execution of the transactions attached to a winning option.
//!
//! The library is self-contained and fully verified. Accounts are identified
//! by plain integer keys and time is a plain integer; instruction decoding,
//! account serialization, token transfers and the performing of executed
//! instruction bytes are the surrounding program's business. Where the
//! deployed program recomputes a derived address and compares it with what
//! the caller supplied, the engine here takes the caller's account as an
//! index into the realm's records and re-checks that the record matches the
//! entity expected for its role, rejecting mismatches before any state
//! changes. Every operation either performs its exact documented state
//! change or returns a specific error with the realm untouched, preserves
//! the realm invariant — most notably that each owner's outstanding-vote
//! counter equals their unrelinquished vote records — and never moves a
//! proposal backward in the lifecycle ordering.
//!
//! Module map: `state` holds the lifecycle states and transition relation;
//! `config` the per-governance policy; `records` the voting-power ledger;
//! `proposal` the proposal data model; `tally` the threshold, quorum and
//! early-tipping rules with their soundness proofs; `realm` the account
//! container, its invariant and the ledger operations; `proposal_ops` the
//! lifecycle operations; `voting` casting, relinquishing and finalizing;
//! `execution` the timelocked execution engine and deposit refund;
//! `instruction` the closed instruction type and the total processor.

pub mod config;
pub mod errors;
pub mod execution;
pub mod instruction;
pub mod proposal;
pub mod proposal_ops;
pub mod realm;
pub mod records;
pub mod state;
pub mod tally;
pub mod voting;
