//! Receipt validation and accounting for a query-serving indexer.
//!
//! Every query that is paid for arrives with a signed receipt. This crate
//! holds the rules by which such a receipt is accepted or turned down: the
//! store of the fees the indexer itself appraised, the snapshots of
//! allocations, escrow balances and signers, the checks that are run on each
//! receipt, and the manager that reserves an accepted receipt's value against
//! its payer's escrow until the receipt is stored durably.
//!
//! A receipt comes as plain values: its fields, the identifier of its query,
//! its digest in the signing domain and its signature. The signer is
//! recovered from the last two here; how the digest is made of the fields is
//! the caller's part.
//!
//! All of it is plain sequential code. Callers that serve requests
//! concurrently keep a [`manager::Manager`] behind a lock: every state change
//! goes through `&mut self`, so two receipts are never checked against the
//! same balance at once.

pub mod ident;
pub mod table;
pub mod appraisal;
pub mod snapshot;
pub mod signature;
pub mod receipt;
pub mod checks;
pub mod manager;
pub mod laws;
pub mod text;
pub mod error;
pub mod service;
