//! The operation surface: one verified function per protocol operation.
//!
//! Each function validates the actor, the record state and the time gate,
//! updates the pool ledger and the record with checked arithmetic, and
//! returns the single event describing the transition, or an error with no
//! effect at all. The host applies each call atomically, moves the actual
//! tokens as the event describes, and supplies the current time; everything
//! decided here is decided on plain values.
//!
//! Every resolving transition re-checks `Active` as its very first guard, so
//! the loser of a resolution race always fails with `TransferNotActive`.

use vstd::prelude::*;
use crate::constants::{MAX_FEE_BPS, MEMO_SIZE};
use crate::errors::HandshakeError;
use crate::events::{
    FeesWithdrawn, PoolClosed, PoolCreated, PoolPaused, PoolReset, TransferCancelled,
    TransferClaimed, TransferCreated, TransferDeclined, TransferDestroyed, TransferExpired,
    TransferRejected,
};
use crate::pool::{spec_fee, Pool};
use crate::transfer::{valid_window, SecureTransfer, TransferStatus};

verus! {

/// Why `create_transfer` would refuse, in the order the checks run; `None`
/// means creation succeeds.
pub open spec fn create_check(
    pool: Pool,
    amount: u64,
    memo: Seq<u8>,
    claimable_after: i64,
    claimable_until: i64,
    now: i64,
) -> Option<HandshakeError> {
    if pool.is_paused {
        Some(HandshakeError::PoolPaused)
    } else if amount == 0 {
        Some(HandshakeError::DepositTooSmall)
    } else if memo.len() > MEMO_SIZE {
        Some(HandshakeError::InvalidMemoLength)
    } else if !valid_window(claimable_after, claimable_until, now) {
        Some(HandshakeError::InvalidTimeWindow)
    } else if pool.total_deposits + amount > u64::MAX || pool.total_escrowed + amount > u64::MAX
        || pool.total_transfers_created == u64::MAX {
        Some(HandshakeError::MathOverflow)
    } else {
        None
    }
}

/// Whether recording a full-amount withdrawal plus one resolution would
/// overflow the ledger counters.
pub open spec fn resolution_overflows(pool: Pool, amount: u64) -> bool {
    ||| pool.total_withdrawals + amount > u64::MAX
    ||| amount > pool.total_escrowed
    ||| pool.total_transfers_resolved == u64::MAX
}

/// Why `claim_transfer` would refuse; `None` means the claim succeeds.
pub open spec fn claim_check(pool: Pool, t: SecureTransfer, recipient: u64, now: i64) -> Option<
    HandshakeError,
> {
    if t.status != TransferStatus::Active {
        Some(HandshakeError::TransferNotActive)
    } else if recipient != t.recipient {
        Some(HandshakeError::OnlyRecipientCanClaim)
    } else if !t.window_open(now) {
        Some(HandshakeError::CannotClaim)
    } else if resolution_overflows(pool, t.amount) || pool.collected_fees + spec_fee(
        t.amount,
        pool.transfer_fee_bps,
    ) > u64::MAX {
        Some(HandshakeError::MathOverflow)
    } else {
        None
    }
}

/// Why `cancel_transfer` would refuse; `None` means the cancel succeeds.
pub open spec fn cancel_check(pool: Pool, t: SecureTransfer, sender: u64) -> Option<
    HandshakeError,
> {
    if t.status != TransferStatus::Active {
        Some(HandshakeError::TransferNotActive)
    } else if sender != t.sender {
        Some(HandshakeError::OnlySenderCanCancel)
    } else if resolution_overflows(pool, t.amount) {
        Some(HandshakeError::MathOverflow)
    } else {
        None
    }
}

/// Why `decline_transfer` would refuse; `None` means the decline succeeds.
pub open spec fn decline_check(pool: Pool, t: SecureTransfer, recipient: u64) -> Option<
    HandshakeError,
> {
    if t.status != TransferStatus::Active {
        Some(HandshakeError::TransferNotActive)
    } else if recipient != t.recipient {
        Some(HandshakeError::OnlyRecipientCanDecline)
    } else if resolution_overflows(pool, t.amount) {
        Some(HandshakeError::MathOverflow)
    } else {
        None
    }
}

/// Why `reject_transfer` would refuse; `None` means the rejection succeeds.
pub open spec fn reject_check(pool: Pool, t: SecureTransfer, operator: u64) -> Option<
    HandshakeError,
> {
    if t.status != TransferStatus::Active {
        Some(HandshakeError::TransferNotActive)
    } else if operator != pool.operator {
        Some(HandshakeError::OnlyOperatorCanReject)
    } else if resolution_overflows(pool, t.amount) {
        Some(HandshakeError::MathOverflow)
    } else {
        None
    }
}

/// Why `expire_transfer` would refuse; `None` means the expiry succeeds.
/// Expiry is permissionless, so no actor appears here.
pub open spec fn expire_check(pool: Pool, t: SecureTransfer, now: i64) -> Option<HandshakeError> {
    if t.status != TransferStatus::Active {
        Some(HandshakeError::TransferNotActive)
    } else if t.claimable_until <= 0 {
        Some(HandshakeError::InvalidTimeWindow)
    } else if !t.spec_expired(now) {
        Some(HandshakeError::CannotClaim)
    } else if resolution_overflows(pool, t.amount) {
        Some(HandshakeError::MathOverflow)
    } else {
        None
    }
}

/// Why `destroy_transfer` would refuse; `None` means the destroy succeeds.
pub open spec fn destroy_check(pool: Pool, t: SecureTransfer, operator: u64) -> Option<
    HandshakeError,
> {
    if t.status != TransferStatus::Active {
        Some(HandshakeError::TransferNotActive)
    } else if operator != pool.operator {
        Some(HandshakeError::Unauthorized)
    } else if !pool.is_paused {
        Some(HandshakeError::PoolPaused)
    } else if resolution_overflows(pool, t.amount) {
        Some(HandshakeError::MathOverflow)
    } else {
        None
    }
}

/// Why `withdraw_fees` would refuse; `None` means the sweep succeeds.
pub open spec fn withdraw_fees_check(pool: Pool, operator: u64) -> Option<HandshakeError> {
    if operator != pool.operator {
        Some(HandshakeError::Unauthorized)
    } else if pool.collected_fees == 0 {
        Some(HandshakeError::CalculationError)
    } else {
        None
    }
}

/// Why `reset_pool` would refuse; `None` means the reset succeeds.
pub open spec fn reset_check(pool: Pool, operator: u64) -> Option<HandshakeError> {
    if operator != pool.operator {
        Some(HandshakeError::Unauthorized)
    } else if pool.total_transfers_created > pool.total_transfers_resolved {
        Some(HandshakeError::OutstandingTransfers)
    } else {
        None
    }
}

/// Why `close_pool` would refuse; `None` means the close succeeds.
/// `pool_balance` is the pool's actual token balance, read by the host.
pub open spec fn close_check(
    pool: Pool,
    operator: u64,
    withdrawal_amount: u64,
    pool_balance: u64,
) -> Option<HandshakeError> {
    if operator != pool.operator {
        Some(HandshakeError::Unauthorized)
    } else if pool.total_transfers_created > pool.total_transfers_resolved {
        Some(HandshakeError::OutstandingTransfers)
    } else if withdrawal_amount > pool_balance {
        Some(HandshakeError::InsufficientFunds)
    } else {
        None
    }
}

/// The pool after a creation: the amount is deposited and the created
/// counter grows by one.
pub open spec fn pool_after_create(pool: Pool, amount: u64) -> Pool {
    Pool {
        total_deposits: (pool.total_deposits + amount) as u64,
        total_escrowed: (pool.total_escrowed + amount) as u64,
        total_transfers_created: (pool.total_transfers_created + 1) as u64,
        ..pool
    }
}

/// The pool after a feeless resolution: the full amount is withdrawn and the
/// resolved counter grows by one.
pub open spec fn pool_after_resolution(pool: Pool, amount: u64) -> Pool {
    Pool {
        total_withdrawals: (pool.total_withdrawals + amount) as u64,
        total_escrowed: (pool.total_escrowed - amount) as u64,
        total_transfers_resolved: (pool.total_transfers_resolved + 1) as u64,
        ..pool
    }
}

/// The pool after a claim: a feeless resolution plus the fee accumulating
/// into the collected-fees counter.
pub open spec fn pool_after_claim(pool: Pool, amount: u64) -> Pool {
    Pool {
        collected_fees: (pool.collected_fees + spec_fee(amount, pool.transfer_fee_bps)) as u64,
        ..pool_after_resolution(pool, amount)
    }
}

/// Create a zeroed pool ledger for one asset. Fails with `InvalidFeeConfig`
/// exactly when the fee rate exceeds 100%.
pub fn init_pool(operator: u64, pool_id: u64, mint: u64, transfer_fee_bps: u16) -> (r: Result<
    (Pool, PoolCreated),
    HandshakeError,
>)
    ensures
        match r {
            Ok((pool, ev)) => {
                &&& transfer_fee_bps <= MAX_FEE_BPS
                &&& pool == (Pool {
                    version: 1u8,
                    pool_id,
                    operator,
                    mint,
                    transfer_fee_bps,
                    total_deposits: 0u64,
                    total_withdrawals: 0u64,
                    total_escrowed: 0u64,
                    total_transfers_created: 0u64,
                    total_transfers_resolved: 0u64,
                    collected_fees: 0u64,
                    is_paused: false,
                })
                &&& pool.wf()
                &&& ev == (PoolCreated { pool: pool_id, operator, mint, transfer_fee_bps })
            },
            Err(e) => {
                &&& e == HandshakeError::InvalidFeeConfig
                &&& transfer_fee_bps > MAX_FEE_BPS
            },
        },
{
    if transfer_fee_bps > MAX_FEE_BPS {
        return Err(HandshakeError::InvalidFeeConfig);
    }
    let pool = Pool {
        version: 1,
        pool_id,
        operator,
        mint,
        transfer_fee_bps,
        total_deposits: 0,
        total_withdrawals: 0,
        total_escrowed: 0,
        total_transfers_created: 0,
        total_transfers_resolved: 0,
        collected_fees: 0,
        is_paused: false,
    };
    let ev = PoolCreated { pool: pool_id, operator, mint, transfer_fee_bps };
    Ok((pool, ev))
}

/// Create a transfer: escrow `amount` from `sender` into the pool and start
/// a fresh `Active` record. The host debits the sender by `amount` atomically
/// with this call.
pub fn create_transfer(
    pool: &mut Pool,
    sender: u64,
    recipient: u64,
    nonce: u64,
    amount: u64,
    memo: Vec<u8>,
    claimable_after: i64,
    claimable_until: i64,
    now: i64,
) -> (r: Result<(SecureTransfer, TransferCreated), HandshakeError>)
    requires
        old(pool).wf(),
    ensures
        match r {
            Ok((t, ev)) => {
                &&& create_check(
                    *old(pool),
                    amount,
                    memo@,
                    claimable_after,
                    claimable_until,
                    now,
                ) is None
                &&& *final(pool) == pool_after_create(*old(pool), amount)
                &&& final(pool).wf()
                &&& t.wf()
                &&& t.version == 1
                &&& t.nonce == nonce
                &&& t.sender == sender
                &&& t.recipient == recipient
                &&& t.pool == old(pool).pool_id
                &&& t.amount == amount
                &&& t.created_at == now
                &&& t.claimable_after == claimable_after
                &&& t.claimable_until == claimable_until
                &&& t.status == TransferStatus::Active
                &&& t.release_conditions is None
                &&& t.compliance_hash is None
                &&& t.memo@.len() == MEMO_SIZE
                &&& (forall|i: int| 0 <= i < memo@.len() ==> t.memo@[i] == memo@[i])
                &&& (forall|i: int| memo@.len() <= i < MEMO_SIZE ==> t.memo@[i] == 0u8)
                &&& ev == (TransferCreated {
                    pool: old(pool).pool_id,
                    sender,
                    recipient,
                    amount,
                    nonce,
                    memo,
                    claimable_after,
                    claimable_until,
                })
            },
            Err(e) => {
                &&& Some(e) == create_check(
                    *old(pool),
                    amount,
                    memo@,
                    claimable_after,
                    claimable_until,
                    now,
                )
                &&& *final(pool) == *old(pool)
            },
        },
{
    if pool.is_paused {
        return Err(HandshakeError::PoolPaused);
    }
    if amount == 0 {
        return Err(HandshakeError::DepositTooSmall);
    }
    let t = SecureTransfer::initialize(
        nonce,
        sender,
        recipient,
        pool.pool_id,
        amount,
        &memo,
        claimable_after,
        claimable_until,
        now,
    )?;
    if pool.total_deposits.checked_add(amount).is_none() {
        return Err(HandshakeError::MathOverflow);
    }
    if pool.total_escrowed.checked_add(amount).is_none() {
        return Err(HandshakeError::MathOverflow);
    }
    if pool.total_transfers_created == u64::MAX {
        return Err(HandshakeError::MathOverflow);
    }
    pool.add_deposit(amount)?;
    pool.increment_transfers_created()?;
    let ev = TransferCreated {
        pool: pool.pool_id,
        sender,
        recipient,
        amount,
        nonce,
        memo,
        claimable_after,
        claimable_until,
    };
    Ok((t, ev))
}

/// Claim an active transfer as its recipient, within the claim window. The
/// pool withdraws the full escrowed amount, retains the fee, and the host
/// pays `amount - fee` to the recipient.
pub fn claim_transfer(
    pool: &mut Pool,
    transfer: &mut SecureTransfer,
    recipient: u64,
    now: i64,
) -> (r: Result<TransferClaimed, HandshakeError>)
    requires
        old(pool).wf(),
        old(transfer).pool == old(pool).pool_id,
    ensures
        match r {
            Ok(ev) => {
                &&& claim_check(*old(pool), *old(transfer), recipient, now) is None
                &&& *final(pool) == pool_after_claim(*old(pool), old(transfer).amount)
                &&& final(pool).wf()
                &&& *final(transfer) == (SecureTransfer {
                    status: TransferStatus::Claimed,
                    ..*old(transfer)
                })
                &&& ev == (TransferClaimed {
                    pool: old(pool).pool_id,
                    sender: old(transfer).sender,
                    recipient: old(transfer).recipient,
                    nonce: old(transfer).nonce,
                    amount: old(transfer).amount,
                    fee: spec_fee(old(transfer).amount, old(pool).transfer_fee_bps) as u64,
                    net_amount: (old(transfer).amount - spec_fee(
                        old(transfer).amount,
                        old(pool).transfer_fee_bps,
                    )) as u64,
                })
            },
            Err(e) => {
                &&& Some(e) == claim_check(*old(pool), *old(transfer), recipient, now)
                &&& *final(pool) == *old(pool)
                &&& *final(transfer) == *old(transfer)
            },
        },
{
    transfer.validate_active()?;
    transfer.validate_recipient_can_claim(recipient, now)?;
    let amount = transfer.amount;
    let fee = pool.calculate_transfer_fee(amount);
    if pool.total_withdrawals.checked_add(amount).is_none() {
        return Err(HandshakeError::MathOverflow);
    }
    if amount > pool.total_escrowed {
        return Err(HandshakeError::MathOverflow);
    }
    if pool.total_transfers_resolved == u64::MAX {
        return Err(HandshakeError::MathOverflow);
    }
    if pool.collected_fees.checked_add(fee).is_none() {
        return Err(HandshakeError::MathOverflow);
    }
    let net_amount = amount - fee;
    pool.add_withdrawal(amount)?;
    if fee > 0 {
        pool.add_collected_fees(fee)?;
    }
    pool.increment_transfers_resolved()?;
    transfer.mark_as_claimed()?;
    Ok(TransferClaimed {
        pool: pool.pool_id,
        sender: transfer.sender,
        recipient: transfer.recipient,
        nonce: transfer.nonce,
        amount,
        fee,
        net_amount,
    })
}

/// Cancel an active transfer as its original sender; the sender is refunded
/// in full, with no fee.
pub fn cancel_transfer(pool: &mut Pool, transfer: &mut SecureTransfer, sender: u64) -> (r: Result<
    TransferCancelled,
    HandshakeError,
>)
    requires
        old(pool).wf(),
        old(transfer).pool == old(pool).pool_id,
    ensures
        match r {
            Ok(ev) => {
                &&& cancel_check(*old(pool), *old(transfer), sender) is None
                &&& *final(pool) == pool_after_resolution(*old(pool), old(transfer).amount)
                &&& final(pool).wf()
                &&& *final(transfer) == (SecureTransfer {
                    status: TransferStatus::Cancelled,
                    ..*old(transfer)
                })
                &&& ev == (TransferCancelled {
                    pool: old(pool).pool_id,
                    sender: old(transfer).sender,
                    recipient: old(transfer).recipient,
                    nonce: old(transfer).nonce,
                    amount: old(transfer).amount,
                })
            },
            Err(e) => {
                &&& Some(e) == cancel_check(*old(pool), *old(transfer), sender)
                &&& *final(pool) == *old(pool)
                &&& *final(transfer) == *old(transfer)
            },
        },
{
    transfer.validate_active()?;
    transfer.validate_sender_can_cancel(sender)?;
    let amount = transfer.amount;
    if pool.total_withdrawals.checked_add(amount).is_none() {
        return Err(HandshakeError::MathOverflow);
    }
    if amount > pool.total_escrowed {
        return Err(HandshakeError::MathOverflow);
    }
    if pool.total_transfers_resolved == u64::MAX {
        return Err(HandshakeError::MathOverflow);
    }
    pool.add_withdrawal(amount)?;
    pool.increment_transfers_resolved()?;
    transfer.mark_as_cancelled()?;
    Ok(TransferCancelled {
        pool: pool.pool_id,
        sender: transfer.sender,
        recipient: transfer.recipient,
        nonce: transfer.nonce,
        amount,
    })
}

/// Decline an active transfer as its recipient: the settlement is identical
/// to a cancel (full refund to the sender), but expresses recipient-initiated
/// refusal and records an optional reason.
pub fn decline_transfer(
    pool: &mut Pool,
    transfer: &mut SecureTransfer,
    recipient: u64,
    reason: Option<u8>,
) -> (r: Result<TransferDeclined, HandshakeError>)
    requires
        old(pool).wf(),
        old(transfer).pool == old(pool).pool_id,
    ensures
        match r {
            Ok(ev) => {
                &&& decline_check(*old(pool), *old(transfer), recipient) is None
                &&& *final(pool) == pool_after_resolution(*old(pool), old(transfer).amount)
                &&& final(pool).wf()
                &&& *final(transfer) == (SecureTransfer {
                    status: TransferStatus::Declined,
                    ..*old(transfer)
                })
                &&& ev == (TransferDeclined {
                    pool: old(pool).pool_id,
                    sender: old(transfer).sender,
                    recipient: old(transfer).recipient,
                    nonce: old(transfer).nonce,
                    amount: old(transfer).amount,
                    reason,
                })
            },
            Err(e) => {
                &&& Some(e) == decline_check(*old(pool), *old(transfer), recipient)
                &&& *final(pool) == *old(pool)
                &&& *final(transfer) == *old(transfer)
            },
        },
{
    transfer.validate_active()?;
    if recipient != transfer.recipient {
        return Err(HandshakeError::OnlyRecipientCanDecline);
    }
    let amount = transfer.amount;
    if pool.total_withdrawals.checked_add(amount).is_none() {
        return Err(HandshakeError::MathOverflow);
    }
    if amount > pool.total_escrowed {
        return Err(HandshakeError::MathOverflow);
    }
    if pool.total_transfers_resolved == u64::MAX {
        return Err(HandshakeError::MathOverflow);
    }
    pool.add_withdrawal(amount)?;
    pool.increment_transfers_resolved()?;
    transfer.mark_as_declined()?;
    Ok(TransferDeclined {
        pool: pool.pool_id,
        sender: transfer.sender,
        recipient: transfer.recipient,
        nonce: transfer.nonce,
        amount,
        reason,
    })
}

/// Reject an active transfer as the pool operator: full refund to the
/// sender, with the optional reason recorded in the event for audit.
pub fn reject_transfer(
    pool: &mut Pool,
    transfer: &mut SecureTransfer,
    operator: u64,
    reason: Option<u8>,
) -> (r: Result<TransferRejected, HandshakeError>)
    requires
        old(pool).wf(),
        old(transfer).pool == old(pool).pool_id,
    ensures
        match r {
            Ok(ev) => {
                &&& reject_check(*old(pool), *old(transfer), operator) is None
                &&& *final(pool) == pool_after_resolution(*old(pool), old(transfer).amount)
                &&& final(pool).wf()
                &&& *final(transfer) == (SecureTransfer {
                    status: TransferStatus::Rejected,
                    ..*old(transfer)
                })
                &&& ev == (TransferRejected {
                    pool: old(pool).pool_id,
                    sender: old(transfer).sender,
                    recipient: old(transfer).recipient,
                    nonce: old(transfer).nonce,
                    amount: old(transfer).amount,
                    reason,
                })
            },
            Err(e) => {
                &&& Some(e) == reject_check(*old(pool), *old(transfer), operator)
                &&& *final(pool) == *old(pool)
                &&& *final(transfer) == *old(transfer)
            },
        },
{
    transfer.validate_active()?;
    if operator != pool.operator {
        return Err(HandshakeError::OnlyOperatorCanReject);
    }
    let amount = transfer.amount;
    if pool.total_withdrawals.checked_add(amount).is_none() {
        return Err(HandshakeError::MathOverflow);
    }
    if amount > pool.total_escrowed {
        return Err(HandshakeError::MathOverflow);
    }
    if pool.total_transfers_resolved == u64::MAX {
        return Err(HandshakeError::MathOverflow);
    }
    pool.add_withdrawal(amount)?;
    pool.increment_transfers_resolved()?;
    transfer.mark_as_rejected()?;
    Ok(TransferRejected {
        pool: pool.pool_id,
        sender: transfer.sender,
        recipient: transfer.recipient,
        nonce: transfer.nonce,
        amount,
        reason,
    })
}

/// Expire an active transfer whose claim deadline is set and strictly past:
/// permissionless, so abandoned transfers can be garbage-collected without
/// any interested party's cooperation. Full refund to the sender.
pub fn expire_transfer(pool: &mut Pool, transfer: &mut SecureTransfer, now: i64) -> (r: Result<
    TransferExpired,
    HandshakeError,
>)
    requires
        old(pool).wf(),
        old(transfer).pool == old(pool).pool_id,
    ensures
        match r {
            Ok(ev) => {
                &&& expire_check(*old(pool), *old(transfer), now) is None
                &&& *final(pool) == pool_after_resolution(*old(pool), old(transfer).amount)
                &&& final(pool).wf()
                &&& *final(transfer) == (SecureTransfer {
                    status: TransferStatus::Expired,
                    ..*old(transfer)
                })
                &&& ev == (TransferExpired {
                    pool: old(pool).pool_id,
                    sender: old(transfer).sender,
                    recipient: old(transfer).recipient,
                    nonce: old(transfer).nonce,
                    amount: old(transfer).amount,
                })
            },
            Err(e) => {
                &&& Some(e) == expire_check(*old(pool), *old(transfer), now)
                &&& *final(pool) == *old(pool)
                &&& *final(transfer) == *old(transfer)
            },
        },
{
    transfer.validate_active()?;
    if transfer.claimable_until <= 0 {
        return Err(HandshakeError::InvalidTimeWindow);
    }
    if !transfer.is_expired(now) {
        return Err(HandshakeError::CannotClaim);
    }
    let amount = transfer.amount;
    if pool.total_withdrawals.checked_add(amount).is_none() {
        return Err(HandshakeError::MathOverflow);
    }
    if amount > pool.total_escrowed {
        return Err(HandshakeError::MathOverflow);
    }
    if pool.total_transfers_resolved == u64::MAX {
        return Err(HandshakeError::MathOverflow);
    }
    pool.add_withdrawal(amount)?;
    pool.increment_transfers_resolved()?;
    transfer.mark_as_expired()?;
    Ok(TransferExpired {
        pool: pool.pool_id,
        sender: transfer.sender,
        recipient: transfer.recipient,
        nonce: transfer.nonce,
        amount,
    })
}

/// Emergency destroy, operator-only and only while the pool is paused: the
/// full amount is swept to the operator, not refunded to the sender, and the
/// record ends `Rejected`. The storage deposit also goes to the operator,
/// unlike every normal path.
pub fn destroy_transfer(pool: &mut Pool, transfer: &mut SecureTransfer, operator: u64) -> (r:
    Result<TransferDestroyed, HandshakeError>)
    requires
        old(pool).wf(),
        old(transfer).pool == old(pool).pool_id,
    ensures
        match r {
            Ok(ev) => {
                &&& destroy_check(*old(pool), *old(transfer), operator) is None
                &&& *final(pool) == pool_after_resolution(*old(pool), old(transfer).amount)
                &&& final(pool).wf()
                &&& *final(transfer) == (SecureTransfer {
                    status: TransferStatus::Rejected,
                    ..*old(transfer)
                })
                &&& ev == (TransferDestroyed {
                    pool: old(pool).pool_id,
                    sender: old(transfer).sender,
                    recipient: old(transfer).recipient,
                    nonce: old(transfer).nonce,
                    amount: old(transfer).amount,
                })
            },
            Err(e) => {
                &&& Some(e) == destroy_check(*old(pool), *old(transfer), operator)
                &&& *final(pool) == *old(pool)
                &&& *final(transfer) == *old(transfer)
            },
        },
{
    transfer.validate_active()?;
    if operator != pool.operator {
        return Err(HandshakeError::Unauthorized);
    }
    if !pool.is_paused {
        return Err(HandshakeError::PoolPaused);
    }
    let amount = transfer.amount;
    if pool.total_withdrawals.checked_add(amount).is_none() {
        return Err(HandshakeError::MathOverflow);
    }
    if amount > pool.total_escrowed {
        return Err(HandshakeError::MathOverflow);
    }
    if pool.total_transfers_resolved == u64::MAX {
        return Err(HandshakeError::MathOverflow);
    }
    pool.add_withdrawal(amount)?;
    pool.increment_transfers_resolved()?;
    transfer.mark_as_rejected()?;
    Ok(TransferDestroyed {
        pool: pool.pool_id,
        sender: transfer.sender,
        recipient: transfer.recipient,
        nonce: transfer.nonce,
        amount,
    })
}

/// Sweep the collected fees to the operator. Requires a positive collected
/// balance; resets the counter to zero.
pub fn withdraw_fees(pool: &mut Pool, operator: u64) -> (r: Result<FeesWithdrawn, HandshakeError>)
    ensures
        match r {
            Ok(ev) => {
                &&& withdraw_fees_check(*old(pool), operator) is None
                &&& *final(pool) == (Pool { collected_fees: 0u64, ..*old(pool) })
                &&& ev == (FeesWithdrawn {
                    pool: old(pool).pool_id,
                    operator: old(pool).operator,
                    amount: old(pool).collected_fees,
                })
            },
            Err(e) => {
                &&& Some(e) == withdraw_fees_check(*old(pool), operator)
                &&& *final(pool) == *old(pool)
            },
        },
        old(pool).wf() ==> final(pool).wf(),
{
    if operator != pool.operator {
        return Err(HandshakeError::Unauthorized);
    }
    let fees = pool.collected_fees;
    if fees == 0 {
        return Err(HandshakeError::CalculationError);
    }
    pool.reset_collected_fees();
    Ok(FeesWithdrawn { pool: pool.pool_id, operator: pool.operator, amount: fees })
}

/// Set or clear the pool's paused flag, operator-only. Paused blocks new
/// creation and enables the emergency destroy path; it does not block normal
/// resolution.
pub fn pause_pool(pool: &mut Pool, operator: u64, is_paused: bool) -> (r: Result<
    PoolPaused,
    HandshakeError,
>)
    ensures
        match r {
            Ok(ev) => {
                &&& operator == old(pool).operator
                &&& *final(pool) == (Pool { is_paused, ..*old(pool) })
                &&& ev == (PoolPaused { pool: old(pool).pool_id, is_paused })
            },
            Err(e) => {
                &&& e == HandshakeError::Unauthorized
                &&& operator != old(pool).operator
                &&& *final(pool) == *old(pool)
            },
        },
        old(pool).wf() ==> final(pool).wf(),
{
    if operator != pool.operator {
        return Err(HandshakeError::Unauthorized);
    }
    pool.is_paused = is_paused;
    Ok(PoolPaused { pool: pool.pool_id, is_paused })
}

/// Zero all pool counters without destroying the ledger, operator-only and
/// only once no transfers are outstanding. The paused flag is kept.
pub fn reset_pool(pool: &mut Pool, operator: u64) -> (r: Result<PoolReset, HandshakeError>)
    ensures
        match r {
            Ok(ev) => {
                &&& reset_check(*old(pool), operator) is None
                &&& *final(pool) == (Pool {
                    total_deposits: 0u64,
                    total_withdrawals: 0u64,
                    total_escrowed: 0u64,
                    total_transfers_created: 0u64,
                    total_transfers_resolved: 0u64,
                    collected_fees: 0u64,
                    ..*old(pool)
                })
                &&& ev == (PoolReset { pool: old(pool).pool_id })
            },
            Err(e) => {
                &&& Some(e) == reset_check(*old(pool), operator)
                &&& *final(pool) == *old(pool)
            },
        },
        old(pool).wf() ==> final(pool).wf(),
{
    if operator != pool.operator {
        return Err(HandshakeError::Unauthorized);
    }
    if pool.has_outstanding_transfers() {
        return Err(HandshakeError::OutstandingTransfers);
    }
    pool.total_deposits = 0;
    pool.total_withdrawals = 0;
    pool.total_escrowed = 0;
    pool.total_transfers_created = 0;
    pool.total_transfers_resolved = 0;
    pool.collected_fees = 0;
    Ok(PoolReset { pool: pool.pool_id })
}

/// Validate closing the pool: operator-only, no outstanding transfers, and
/// the requested sweep may not exceed the pool's actual token balance, which
/// the host reads and passes in. On success the host sweeps the amount to
/// the operator and destroys the ledger.
pub fn close_pool(pool: &Pool, operator: u64, withdrawal_amount: u64, pool_balance: u64) -> (r:
    Result<PoolClosed, HandshakeError>)
    ensures
        match r {
            Ok(ev) => {
                &&& close_check(*pool, operator, withdrawal_amount, pool_balance) is None
                &&& ev == (PoolClosed {
                    pool: pool.pool_id,
                    operator: pool.operator,
                    withdrawal_amount,
                })
            },
            Err(e) => Some(e) == close_check(*pool, operator, withdrawal_amount, pool_balance),
        },
{
    if operator != pool.operator {
        return Err(HandshakeError::Unauthorized);
    }
    if pool.has_outstanding_transfers() {
        return Err(HandshakeError::OutstandingTransfers);
    }
    if withdrawal_amount > pool_balance {
        return Err(HandshakeError::InsufficientFunds);
    }
    Ok(PoolClosed { pool: pool.pool_id, operator: pool.operator, withdrawal_amount })
}

} // verus!
