//! Structured events, one per completed transition.
//!
//! Every state-changing operation yields exactly one of these; the host owns
//! delivery and indexing. Each event carries the record identity (pool,
//! parties, nonce), the amount, and transition-specific fields. The
//! settlement the host must perform can be read off the event: the claimed
//! net amount goes to the recipient, refunds go to the sender, and the
//! emergency destroy path sweeps to the operator.

use vstd::prelude::*;

verus! {

/// A new pool was initialized by its operator.
#[derive(Clone, Copy, Debug, PartialEq, Eq)]
pub struct PoolCreated {
    /// The new pool's identifier.
    pub pool: u64,
    /// Its administering operator.
    pub operator: u64,
    /// The asset it escrows.
    pub mint: u64,
    /// The claim fee rate, in basis points.
    pub transfer_fee_bps: u16,
}

/// A transfer was created and its amount escrowed.
#[derive(Clone, Debug, PartialEq, Eq)]
pub struct TransferCreated {
    /// The pool the transfer belongs to.
    pub pool: u64,
    /// Who locked the value.
    pub sender: u64,
    /// Who may claim it.
    pub recipient: u64,
    /// The escrowed amount.
    pub amount: u64,
    /// The sender-chosen nonce identifying the record.
    pub nonce: u64,
    /// The memo as supplied, before padding.
    pub memo: Vec<u8>,
    /// Lower claim-window bound (0 = immediate).
    pub claimable_after: i64,
    /// Upper claim-window bound (0 = no deadline).
    pub claimable_until: i64,
}

/// The recipient claimed; the pool retained the fee.
#[derive(Clone, Copy, Debug, PartialEq, Eq)]
pub struct TransferClaimed {
    /// The pool the transfer belonged to.
    pub pool: u64,
    /// The original sender.
    pub sender: u64,
    /// The claiming recipient.
    pub recipient: u64,
    /// The record's nonce.
    pub nonce: u64,
    /// The full escrowed amount, withdrawn from the pool.
    pub amount: u64,
    /// The fee retained by the pool.
    pub fee: u64,
    /// What the recipient receives: `amount - fee`.
    pub net_amount: u64,
}

/// The sender cancelled and was refunded in full.
#[derive(Clone, Copy, Debug, PartialEq, Eq)]
pub struct TransferCancelled {
    /// The pool the transfer belonged to.
    pub pool: u64,
    /// The refunded sender.
    pub sender: u64,
    /// The designated recipient.
    pub recipient: u64,
    /// The record's nonce.
    pub nonce: u64,
    /// The refunded amount.
    pub amount: u64,
}

/// The operator rejected; the sender was refunded in full.
#[derive(Clone, Copy, Debug, PartialEq, Eq)]
pub struct TransferRejected {
    /// The pool the transfer belonged to.
    pub pool: u64,
    /// The refunded sender.
    pub sender: u64,
    /// The designated recipient.
    pub recipient: u64,
    /// The record's nonce.
    pub nonce: u64,
    /// The refunded amount.
    pub amount: u64,
    /// Optional audit reason code.
    pub reason: Option<u8>,
}

/// The recipient declined; the sender was refunded in full.
#[derive(Clone, Copy, Debug, PartialEq, Eq)]
pub struct TransferDeclined {
    /// The pool the transfer belonged to.
    pub pool: u64,
    /// The refunded sender.
    pub sender: u64,
    /// The declining recipient.
    pub recipient: u64,
    /// The record's nonce.
    pub nonce: u64,
    /// The refunded amount.
    pub amount: u64,
    /// Optional reason code.
    pub reason: Option<u8>,
}

/// The claim deadline passed and the record was expired permissionlessly;
/// the sender was refunded in full.
#[derive(Clone, Copy, Debug, PartialEq, Eq)]
pub struct TransferExpired {
    /// The pool the transfer belonged to.
    pub pool: u64,
    /// The refunded sender.
    pub sender: u64,
    /// The designated recipient.
    pub recipient: u64,
    /// The record's nonce.
    pub nonce: u64,
    /// The refunded amount.
    pub amount: u64,
}

/// The emergency destroy path swept the escrow to the operator while the
/// pool was paused.
#[derive(Clone, Copy, Debug, PartialEq, Eq)]
pub struct TransferDestroyed {
    /// The pool the transfer belonged to.
    pub pool: u64,
    /// The original sender (not refunded on this path).
    pub sender: u64,
    /// The designated recipient.
    pub recipient: u64,
    /// The record's nonce.
    pub nonce: u64,
    /// The amount swept to the operator.
    pub amount: u64,
}

/// The operator paused or unpaused the pool.
#[derive(Clone, Copy, Debug, PartialEq, Eq)]
pub struct PoolPaused {
    /// The affected pool.
    pub pool: u64,
    /// The new paused flag.
    pub is_paused: bool,
}

/// The operator zeroed all pool counters.
#[derive(Clone, Copy, Debug, PartialEq, Eq)]
pub struct PoolReset {
    /// The reset pool.
    pub pool: u64,
}

/// The operator closed the pool, sweeping the given amount out.
#[derive(Clone, Copy, Debug, PartialEq, Eq)]
pub struct PoolClosed {
    /// The closed pool.
    pub pool: u64,
    /// Its operator, who receives the sweep.
    pub operator: u64,
    /// The amount swept to the operator.
    pub withdrawal_amount: u64,
}

/// The operator swept the collected fees.
#[derive(Clone, Copy, Debug, PartialEq, Eq)]
pub struct FeesWithdrawn {
    /// The affected pool.
    pub pool: u64,
    /// Its operator, who receives the fees.
    pub operator: u64,
    /// The swept fee amount.
    pub amount: u64,
}

} // verus!
