//! An escrow-transfer protocol: a sender locks value in a per-asset pool, and
//! the recipient, the sender, or the pool operator later releases it under
//! narrowly scoped, time-gated rules, with a permissionless expiry as a
//! backstop.
//!
//! The pool ledger keeps aggregate accounting (`escrowed == deposited -
//! withdrawn` at all times) while each transfer record runs its own
//! one-directional state machine from `Active` to exactly one terminal
//! status. The host that custodies the actual tokens applies each call
//! atomically; this crate holds the verified accounting, authorization and
//! state-machine logic, working on plain values the host hands in.

pub mod constants;
pub mod errors;
pub mod events;
pub mod instructions;
pub mod laws;
pub mod pool;
pub mod transfer;
