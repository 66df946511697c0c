//! A deterministic, in-process simulation of a proof-of-work burnchain.
//!
//! The simulated chain advances one block at a time. Callers queue protocol
//! operations; each advance derives the next header from the current tip,
//! stamps the queued operations with their position in the new block, and
//! hands them to a ledger transaction whose outcome becomes the new tip.

pub mod digest;
pub mod txid;
pub mod operations;
pub mod clock;
pub mod chain;
pub mod header;
pub mod stamper;
pub mod committer;
pub mod controller;
