//! Core logic of a ticketed raffle: lifecycle state machine, ticket ledger,
//! escrow accounting, and the consumer side of a commit/reveal randomness
//! protocol.
//!
//! The hosting environment (account storage, signature checks, the token
//! service that moves value, and the randomness oracle) is out of scope here:
//! callers hand in plain values (the clock, the oracle's published state) and
//! receive the value transfers each operation requires, to be executed
//! atomically with the state change.

pub mod errors;
pub mod fees;
pub mod lifecycle;
pub mod randomness;
pub mod state;
pub mod tickets;
