//! Protocol-wide laws, stated and proved against the operation contracts.
//!
//! Each proof function here is part of the library's statement of intent:
//! escrow conservation, the one-shot nature of record resolution, the
//! role-gating of cancel and claim, the outstanding-transfers gate on
//! destructive administration, and the round-trip law that resolving every
//! created transfer re-enables close and reset.

use vstd::prelude::*;
use crate::errors::HandshakeError;
use crate::instructions::{
    cancel_check, claim_check, close_check, decline_check, destroy_check, expire_check,
    pool_after_claim, pool_after_create, pool_after_resolution, reject_check, reset_check,
};
use crate::pool::Pool;
use crate::transfer::SecureTransfer;

verus! {

/// Escrow conservation: in every well-formed pool, the escrowed amount is
/// exactly what was deposited and not yet withdrawn. Every operation of this
/// library that touches a pool preserves well-formedness (see the `wf`
/// clauses in their contracts), so this holds at every observation point.
pub proof fn lemma_escrow_conservation(pool: Pool)
    requires
        pool.wf(),
    ensures
        pool.total_escrowed == pool.total_deposits - pool.total_withdrawals,
{
}

/// A record in a terminal status admits no further resolution: every
/// resolving operation refuses it with `TransferNotActive`, whoever calls
/// and whatever the time. Together with each operation's contract — success
/// moves the record out of `Active` — at most one terminal transition, and
/// so at most one terminal event, can ever happen to a record.
pub proof fn lemma_terminal_state_is_final(
    pool: Pool,
    t: SecureTransfer,
    actor: u64,
    now: i64,
)
    requires
        t.status.is_terminal(),
    ensures
        claim_check(pool, t, actor, now) == Some(HandshakeError::TransferNotActive),
        cancel_check(pool, t, actor) == Some(HandshakeError::TransferNotActive),
        decline_check(pool, t, actor) == Some(HandshakeError::TransferNotActive),
        reject_check(pool, t, actor) == Some(HandshakeError::TransferNotActive),
        expire_check(pool, t, now) == Some(HandshakeError::TransferNotActive),
        destroy_check(pool, t, actor) == Some(HandshakeError::TransferNotActive),
{
}

/// Only the original sender can cancel: if a cancel passes validation, the
/// caller is the record's sender; any third party is refused with the
/// sender-role error while the record is active.
pub proof fn lemma_cancel_is_sender_only(pool: Pool, t: SecureTransfer, caller: u64)
    ensures
        cancel_check(pool, t, caller) is None ==> caller == t.sender,
        !t.status.is_terminal() && caller != t.sender ==> cancel_check(pool, t, caller) == Some(
            HandshakeError::OnlySenderCanCancel,
        ),
{
}

/// Only the designated recipient can claim: if a claim passes validation,
/// the caller is the record's recipient; any third party is refused with the
/// recipient-role error while the record is active.
pub proof fn lemma_claim_is_recipient_only(pool: Pool, t: SecureTransfer, caller: u64, now: i64)
    ensures
        claim_check(pool, t, caller, now) is None ==> caller == t.recipient,
        !t.status.is_terminal() && caller != t.recipient ==> claim_check(pool, t, caller, now)
            == Some(HandshakeError::OnlyRecipientCanClaim),
{
}

/// Expiry is gated on the deadline: it can pass validation only when the
/// upper claim-window bound is set and the current time is strictly past it.
pub proof fn lemma_expire_needs_past_deadline(pool: Pool, t: SecureTransfer, now: i64)
    ensures
        expire_check(pool, t, now) is None ==> t.claimable_until > 0 && now > t.claimable_until,
{
}

/// While any transfer is outstanding (created and not yet resolved), close
/// and reset are refused with `OutstandingTransfers` — whatever withdrawal
/// the operator asks for and whatever the pool's actual token balance.
pub proof fn lemma_outstanding_blocks_destruction(pool: Pool, operator: u64)
    requires
        operator == pool.operator,
        pool.total_transfers_created > pool.total_transfers_resolved,
    ensures
        reset_check(pool, operator) == Some(HandshakeError::OutstandingTransfers),
        forall|withdrawal: u64, balance: u64|
            #[trigger] close_check(pool, operator, withdrawal, balance) == Some(
                HandshakeError::OutstandingTransfers,
            ),
{
}

/// A pool ledger operation, as its effect on the ledger: a creation deposits
/// its amount, a claim withdraws its amount and retains the fee, and a
/// refund-style resolution (cancel, decline, reject, expire, destroy)
/// withdraws its amount with no fee.
pub enum LedgerOp {
    /// A transfer of the given amount is created.
    Create(u64),
    /// A transfer of the given amount is claimed.
    Claim(u64),
    /// A transfer of the given amount is resolved with a full withdrawal and
    /// no fee.
    Refund(u64),
}

/// The pool after one ledger operation, exactly as the corresponding
/// instruction's contract describes its successful effect.
pub open spec fn apply_op(pool: Pool, op: LedgerOp) -> Pool {
    match op {
        LedgerOp::Create(amount) => pool_after_create(pool, amount),
        LedgerOp::Claim(amount) => pool_after_claim(pool, amount),
        LedgerOp::Refund(amount) => pool_after_resolution(pool, amount),
    }
}

/// The pool after a sequence of ledger operations, applied left to right.
pub open spec fn apply_ops(pool: Pool, ops: Seq<LedgerOp>) -> Pool
    decreases ops.len(),
{
    if ops.len() == 0 {
        pool
    } else {
        apply_ops(apply_op(pool, ops[0]), ops.drop_first())
    }
}

/// How many of the operations create a transfer.
pub open spec fn count_creates(ops: Seq<LedgerOp>) -> nat
    decreases ops.len(),
{
    if ops.len() == 0 {
        0
    } else {
        (if ops[0] is Create {
            1nat
        } else {
            0nat
        }) + count_creates(ops.drop_first())
    }
}

/// How many of the operations resolve a transfer (claim or refund).
pub open spec fn count_resolutions(ops: Seq<LedgerOp>) -> nat
    decreases ops.len(),
{
    if ops.len() == 0 {
        0
    } else {
        (if ops[0] is Create {
            0nat
        } else {
            1nat
        }) + count_resolutions(ops.drop_first())
    }
}

/// Over any sequence of successful operations, the created counter grows by
/// exactly the number of creations and the resolved counter by exactly the
/// number of resolutions; identity and the operator are untouched.
pub proof fn lemma_ops_move_counters(pool: Pool, ops: Seq<LedgerOp>)
    requires
        pool.total_transfers_created + count_creates(ops) <= u64::MAX,
        pool.total_transfers_resolved + count_resolutions(ops) <= u64::MAX,
    ensures
        apply_ops(pool, ops).total_transfers_created == pool.total_transfers_created
            + count_creates(ops),
        apply_ops(pool, ops).total_transfers_resolved == pool.total_transfers_resolved
            + count_resolutions(ops),
        apply_ops(pool, ops).operator == pool.operator,
        apply_ops(pool, ops).pool_id == pool.pool_id,
    decreases ops.len(),
{
    if ops.len() != 0 {
        lemma_ops_move_counters(apply_op(pool, ops[0]), ops.drop_first());
    }
}

/// Round trip: starting from a pool with no outstanding transfers, any
/// sequence of successful operations with as many resolutions as creations —
/// whatever mixture of claims and refund-style resolutions — leaves the
/// counters equal again, and close and reset pass validation for the
/// operator (for any withdrawal within the pool's balance).
pub proof fn lemma_round_trip(pool: Pool, ops: Seq<LedgerOp>)
    requires
        pool.total_transfers_created == pool.total_transfers_resolved,
        count_creates(ops) == count_resolutions(ops),
        pool.total_transfers_created + count_creates(ops) <= u64::MAX,
    ensures
        apply_ops(pool, ops).total_transfers_created == apply_ops(
            pool,
            ops,
        ).total_transfers_resolved,
        reset_check(apply_ops(pool, ops), pool.operator) is None,
        forall|withdrawal: u64, balance: u64|
            withdrawal <= balance ==> #[trigger] close_check(
                apply_ops(pool, ops),
                pool.operator,
                withdrawal,
                balance,
            ) is None,
{
    lemma_ops_move_counters(pool, ops);
}

} // verus!
