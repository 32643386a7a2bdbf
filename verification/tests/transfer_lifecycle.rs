use handshake::errors::HandshakeError;
use handshake::instructions::{
    cancel_transfer, claim_transfer, create_transfer, decline_transfer, destroy_transfer,
    expire_transfer, init_pool, pause_pool, reject_transfer,
};
use handshake::pool::Pool;
use handshake::transfer::{SecureTransfer, TransferStatus};

const OPERATOR: u64 = 7;
const POOL_ID: u64 = 11;
const MINT: u64 = 3;
const SENDER: u64 = 100;
const RECIPIENT: u64 = 200;
const STRANGER: u64 = 999;

fn fresh_pool(fee_bps: u16) -> Pool {
    init_pool(OPERATOR, POOL_ID, MINT, fee_bps).unwrap().0
}

fn make_transfer(
    pool: &mut Pool,
    amount: u64,
    claimable_after: i64,
    claimable_until: i64,
    now: i64,
) -> SecureTransfer {
    create_transfer(
        pool,
        SENDER,
        RECIPIENT,
        1,
        amount,
        Vec::new(),
        claimable_after,
        claimable_until,
        now,
    )
    .unwrap()
    .0
}

#[test]
fn create_fills_the_record() {
    let mut pool = fresh_pool(250);
    let memo = b"invoice 42".to_vec();
    let (t, ev) =
        create_transfer(&mut pool, SENDER, RECIPIENT, 5, 1000, memo.clone(), 10, 20, 10).unwrap();
    assert_eq!(t.version, 1);
    assert_eq!(t.nonce, 5);
    assert_eq!(t.sender, SENDER);
    assert_eq!(t.recipient, RECIPIENT);
    assert_eq!(t.pool, POOL_ID);
    assert_eq!(t.amount, 1000);
    assert_eq!(t.created_at, 10);
    assert_eq!(t.claimable_after, 10);
    assert_eq!(t.claimable_until, 20);
    assert_eq!(t.status, TransferStatus::Active);
    assert!(t.release_conditions.is_none());
    assert!(t.compliance_hash.is_none());
    // the memo is zero-padded to the fixed size
    assert_eq!(t.memo.len(), 64);
    assert_eq!(&t.memo[..memo.len()], &memo[..]);
    assert!(t.memo[memo.len()..].iter().all(|b| *b == 0));
    // the event repeats the raw memo
    assert_eq!(ev.memo, memo);
    assert_eq!(ev.pool, POOL_ID);
    assert_eq!(ev.amount, 1000);
    assert_eq!(ev.nonce, 5);
    // pool accounting
    assert_eq!(pool.total_deposits, 1000);
    assert_eq!(pool.total_escrowed, 1000);
    assert_eq!(pool.total_transfers_created, 1);
    assert_eq!(pool.total_transfers_resolved, 0);
}

#[test]
fn create_zero_amount_is_too_small() {
    let mut pool = fresh_pool(0);
    let r = create_transfer(&mut pool, SENDER, RECIPIENT, 1, 0, Vec::new(), 0, 0, 10);
    assert_eq!(r.unwrap_err(), HandshakeError::DepositTooSmall);
    assert_eq!(pool.total_deposits, 0);
    assert_eq!(pool.total_transfers_created, 0);
}

#[test]
fn create_rejects_inverted_window() {
    let mut pool = fresh_pool(0);
    // lower >= upper, both set
    let r = create_transfer(&mut pool, SENDER, RECIPIENT, 1, 10, Vec::new(), 20, 20, 10);
    assert_eq!(r.unwrap_err(), HandshakeError::InvalidTimeWindow);
    let r = create_transfer(&mut pool, SENDER, RECIPIENT, 1, 10, Vec::new(), 30, 20, 10);
    assert_eq!(r.unwrap_err(), HandshakeError::InvalidTimeWindow);
}

#[test]
fn create_rejects_window_in_the_past() {
    let mut pool = fresh_pool(0);
    let r = create_transfer(&mut pool, SENDER, RECIPIENT, 1, 10, Vec::new(), 5, 0, 10);
    assert_eq!(r.unwrap_err(), HandshakeError::InvalidTimeWindow);
    let r = create_transfer(&mut pool, SENDER, RECIPIENT, 1, 10, Vec::new(), 0, 9, 10);
    assert_eq!(r.unwrap_err(), HandshakeError::InvalidTimeWindow);
}

#[test]
fn create_rejects_oversized_memo() {
    let mut pool = fresh_pool(0);
    let memo = vec![7u8; 65];
    let r = create_transfer(&mut pool, SENDER, RECIPIENT, 1, 10, memo, 0, 0, 10);
    assert_eq!(r.unwrap_err(), HandshakeError::InvalidMemoLength);
    // a memo of exactly the fixed size is accepted
    let memo = vec![7u8; 64];
    let (t, _) = create_transfer(&mut pool, SENDER, RECIPIENT, 1, 10, memo, 0, 0, 10).unwrap();
    assert_eq!(t.memo, vec![7u8; 64]);
}

#[test]
fn create_is_blocked_while_paused() {
    let mut pool = fresh_pool(0);
    pause_pool(&mut pool, OPERATOR, true).unwrap();
    let r = create_transfer(&mut pool, SENDER, RECIPIENT, 1, 10, Vec::new(), 0, 0, 10);
    assert_eq!(r.unwrap_err(), HandshakeError::PoolPaused);
}

#[test]
fn create_deposit_overflow_is_math_overflow() {
    let mut pool = fresh_pool(0);
    let _t = make_transfer(&mut pool, u64::MAX, 0, 0, 10);
    let r = create_transfer(&mut pool, SENDER, RECIPIENT, 2, 1, Vec::new(), 0, 0, 10);
    assert_eq!(r.unwrap_err(), HandshakeError::MathOverflow);
    assert_eq!(pool.total_deposits, u64::MAX);
    assert_eq!(pool.total_transfers_created, 1);
}

#[test]
fn claim_takes_fee_and_pays_net() {
    // amount 1000 at 250 bps: fee 25, net 975, the full 1000 withdrawn
    let mut pool = fresh_pool(250);
    let mut t = make_transfer(&mut pool, 1000, 0, 0, 10);
    let ev = claim_transfer(&mut pool, &mut t, RECIPIENT, 11).unwrap();
    assert_eq!(ev.fee, 25);
    assert_eq!(ev.net_amount, 975);
    assert_eq!(ev.amount, 1000);
    assert_eq!(ev.sender, SENDER);
    assert_eq!(ev.recipient, RECIPIENT);
    assert_eq!(t.status, TransferStatus::Claimed);
    assert_eq!(pool.collected_fees, 25);
    assert_eq!(pool.total_withdrawals, 1000);
    assert_eq!(pool.total_escrowed, 0);
    assert_eq!(pool.total_transfers_resolved, 1);
}

#[test]
fn claim_by_stranger_fails_whoever_pays() {
    let mut pool = fresh_pool(0);
    let mut t = make_transfer(&mut pool, 10, 0, 0, 10);
    let r = claim_transfer(&mut pool, &mut t, STRANGER, 11);
    assert_eq!(r.unwrap_err(), HandshakeError::OnlyRecipientCanClaim);
    let r = claim_transfer(&mut pool, &mut t, SENDER, 11);
    assert_eq!(r.unwrap_err(), HandshakeError::OnlyRecipientCanClaim);
    assert_eq!(t.status, TransferStatus::Active);
    assert_eq!(pool.total_withdrawals, 0);
}

#[test]
fn claim_respects_window_bounds() {
    let mut pool = fresh_pool(0);
    let mut t = make_transfer(&mut pool, 10, 20, 30, 10);
    // before the window opens
    let r = claim_transfer(&mut pool, &mut t, RECIPIENT, 19);
    assert_eq!(r.unwrap_err(), HandshakeError::CannotClaim);
    // at the upper bound the window is already closed: [lower, upper)
    let r = claim_transfer(&mut pool, &mut t, RECIPIENT, 30);
    assert_eq!(r.unwrap_err(), HandshakeError::CannotClaim);
    // at the lower bound the window is open
    let ev = claim_transfer(&mut pool, &mut t, RECIPIENT, 20).unwrap();
    assert_eq!(ev.net_amount, 10);
    assert_eq!(t.status, TransferStatus::Claimed);
}

#[test]
fn claim_with_zero_fee_rate_pays_in_full() {
    let mut pool = fresh_pool(0);
    let mut t = make_transfer(&mut pool, 1000, 0, 0, 10);
    let ev = claim_transfer(&mut pool, &mut t, RECIPIENT, 11).unwrap();
    assert_eq!(ev.fee, 0);
    assert_eq!(ev.net_amount, 1000);
    assert_eq!(pool.collected_fees, 0);
}

#[test]
fn cancel_is_sender_only_and_refunds_in_full() {
    let mut pool = fresh_pool(250);
    let mut t = make_transfer(&mut pool, 1000, 0, 0, 10);
    let r = cancel_transfer(&mut pool, &mut t, STRANGER);
    assert_eq!(r.unwrap_err(), HandshakeError::OnlySenderCanCancel);
    let r = cancel_transfer(&mut pool, &mut t, RECIPIENT);
    assert_eq!(r.unwrap_err(), HandshakeError::OnlySenderCanCancel);
    let ev = cancel_transfer(&mut pool, &mut t, SENDER).unwrap();
    assert_eq!(ev.amount, 1000);
    assert_eq!(t.status, TransferStatus::Cancelled);
    // no fee on cancellation
    assert_eq!(pool.collected_fees, 0);
    assert_eq!(pool.total_withdrawals, 1000);
    assert_eq!(pool.total_transfers_resolved, 1);
}

#[test]
fn decline_is_recipient_only_and_refunds_in_full() {
    let mut pool = fresh_pool(250);
    let mut t = make_transfer(&mut pool, 1000, 0, 0, 10);
    let r = decline_transfer(&mut pool, &mut t, STRANGER, Some(4));
    assert_eq!(r.unwrap_err(), HandshakeError::OnlyRecipientCanDecline);
    let ev = decline_transfer(&mut pool, &mut t, RECIPIENT, Some(4)).unwrap();
    assert_eq!(ev.amount, 1000);
    assert_eq!(ev.reason, Some(4));
    assert_eq!(t.status, TransferStatus::Declined);
    assert_eq!(pool.collected_fees, 0);
    assert_eq!(pool.total_withdrawals, 1000);
}

#[test]
fn reject_is_operator_only_and_records_reason() {
    let mut pool = fresh_pool(250);
    let mut t = make_transfer(&mut pool, 1000, 0, 0, 10);
    let r = reject_transfer(&mut pool, &mut t, STRANGER, None);
    assert_eq!(r.unwrap_err(), HandshakeError::OnlyOperatorCanReject);
    let ev = reject_transfer(&mut pool, &mut t, OPERATOR, Some(9)).unwrap();
    assert_eq!(ev.amount, 1000);
    assert_eq!(ev.reason, Some(9));
    assert_eq!(t.status, TransferStatus::Rejected);
    assert_eq!(pool.collected_fees, 0);
    assert_eq!(pool.total_withdrawals, 1000);
}

#[test]
fn expire_needs_a_deadline() {
    let mut pool = fresh_pool(0);
    let mut t = make_transfer(&mut pool, 10, 0, 0, 10);
    let r = expire_transfer(&mut pool, &mut t, 1_000_000);
    assert_eq!(r.unwrap_err(), HandshakeError::InvalidTimeWindow);
    assert_eq!(t.status, TransferStatus::Active);
}

#[test]
fn expire_needs_the_deadline_strictly_past() {
    let mut pool = fresh_pool(0);
    let mut t = make_transfer(&mut pool, 10, 0, 30, 10);
    let r = expire_transfer(&mut pool, &mut t, 29);
    assert_eq!(r.unwrap_err(), HandshakeError::CannotClaim);
    // exactly at the deadline is not yet past it
    let r = expire_transfer(&mut pool, &mut t, 30);
    assert_eq!(r.unwrap_err(), HandshakeError::CannotClaim);
    let ev = expire_transfer(&mut pool, &mut t, 31).unwrap();
    assert_eq!(ev.amount, 10);
    assert_eq!(t.status, TransferStatus::Expired);
    // full refund: the whole amount is withdrawn, no fee
    assert_eq!(pool.total_withdrawals, 10);
    assert_eq!(pool.collected_fees, 0);
    assert_eq!(pool.total_transfers_resolved, 1);
}

#[test]
fn expire_is_permissionless() {
    // no actor argument exists: the call carries no identity at all, so the
    // refund reaches the sender whoever submitted it
    let mut pool = fresh_pool(0);
    let mut t = make_transfer(&mut pool, 10, 0, 30, 10);
    let ev = expire_transfer(&mut pool, &mut t, 31).unwrap();
    assert_eq!(ev.sender, SENDER);
}

#[test]
fn destroy_requires_operator_and_paused() {
    let mut pool = fresh_pool(0);
    let mut t = make_transfer(&mut pool, 10, 0, 0, 10);
    let r = destroy_transfer(&mut pool, &mut t, STRANGER);
    assert_eq!(r.unwrap_err(), HandshakeError::Unauthorized);
    // operator, but the pool is not paused
    let r = destroy_transfer(&mut pool, &mut t, OPERATOR);
    assert_eq!(r.unwrap_err(), HandshakeError::PoolPaused);
    pause_pool(&mut pool, OPERATOR, true).unwrap();
    let ev = destroy_transfer(&mut pool, &mut t, OPERATOR).unwrap();
    assert_eq!(ev.amount, 10);
    // the destroy path reuses the Rejected status
    assert_eq!(t.status, TransferStatus::Rejected);
    assert_eq!(pool.total_withdrawals, 10);
    assert_eq!(pool.total_transfers_resolved, 1);
}

#[test]
fn paused_pool_still_resolves_normally() {
    let mut pool = fresh_pool(0);
    let mut t1 = make_transfer(&mut pool, 10, 0, 0, 10);
    let mut t2 = create_transfer(&mut pool, SENDER, RECIPIENT, 2, 20, Vec::new(), 0, 40, 10)
        .unwrap()
        .0;
    let mut t3 = create_transfer(&mut pool, SENDER, RECIPIENT, 3, 30, Vec::new(), 0, 0, 10)
        .unwrap()
        .0;
    pause_pool(&mut pool, OPERATOR, true).unwrap();
    // claim, expire and cancel all pass while paused
    claim_transfer(&mut pool, &mut t1, RECIPIENT, 11).unwrap();
    expire_transfer(&mut pool, &mut t2, 41).unwrap();
    cancel_transfer(&mut pool, &mut t3, SENDER).unwrap();
    assert_eq!(pool.total_transfers_resolved, 3);
}

#[test]
fn second_resolution_always_not_active() {
    let mut pool = fresh_pool(0);
    let mut t = make_transfer(&mut pool, 10, 0, 30, 10);
    claim_transfer(&mut pool, &mut t, RECIPIENT, 11).unwrap();
    let pool_before = pool;
    // every resolving call now fails with the state error, whoever calls
    let r = claim_transfer(&mut pool, &mut t, RECIPIENT, 11);
    assert_eq!(r.unwrap_err(), HandshakeError::TransferNotActive);
    let r = cancel_transfer(&mut pool, &mut t, SENDER);
    assert_eq!(r.unwrap_err(), HandshakeError::TransferNotActive);
    let r = decline_transfer(&mut pool, &mut t, RECIPIENT, None);
    assert_eq!(r.unwrap_err(), HandshakeError::TransferNotActive);
    let r = reject_transfer(&mut pool, &mut t, OPERATOR, None);
    assert_eq!(r.unwrap_err(), HandshakeError::TransferNotActive);
    let r = expire_transfer(&mut pool, &mut t, 31);
    assert_eq!(r.unwrap_err(), HandshakeError::TransferNotActive);
    let r = destroy_transfer(&mut pool, &mut t, OPERATOR);
    assert_eq!(r.unwrap_err(), HandshakeError::TransferNotActive);
    // and the loser of the race changes nothing
    assert_eq!(pool, pool_before);
    assert_eq!(t.status, TransferStatus::Claimed);
}

#[test]
fn race_loser_fails_for_every_terminal_state() {
    let mut pool = fresh_pool(0);
    let mut a = create_transfer(&mut pool, SENDER, RECIPIENT, 1, 10, Vec::new(), 0, 0, 10)
        .unwrap()
        .0;
    let mut b = create_transfer(&mut pool, SENDER, RECIPIENT, 2, 10, Vec::new(), 0, 0, 10)
        .unwrap()
        .0;
    cancel_transfer(&mut pool, &mut a, SENDER).unwrap();
    let r = claim_transfer(&mut pool, &mut a, RECIPIENT, 11);
    assert_eq!(r.unwrap_err(), HandshakeError::TransferNotActive);
    decline_transfer(&mut pool, &mut b, RECIPIENT, None).unwrap();
    let r = cancel_transfer(&mut pool, &mut b, SENDER);
    assert_eq!(r.unwrap_err(), HandshakeError::TransferNotActive);
}

#[test]
fn validate_helpers_report_their_roles() {
    let mut pool = fresh_pool(0);
    let t = make_transfer(&mut pool, 10, 20, 30, 10);
    assert!(t.validate_active().is_ok());
    assert_eq!(
        t.validate_sender_can_cancel(STRANGER).unwrap_err(),
        HandshakeError::OnlySenderCanCancel
    );
    assert!(t.validate_sender_can_cancel(SENDER).is_ok());
    assert_eq!(
        t.validate_recipient_can_claim(STRANGER, 25).unwrap_err(),
        HandshakeError::OnlyRecipientCanClaim
    );
    assert_eq!(
        t.validate_recipient_can_claim(RECIPIENT, 19).unwrap_err(),
        HandshakeError::CannotClaim
    );
    assert!(t.validate_recipient_can_claim(RECIPIENT, 25).is_ok());
    assert!(t.validate_claim_window(25).is_ok());
    assert!(t.validate_claim_window(30).is_err());
    assert!(!t.is_expired(30));
    assert!(t.is_expired(31));
}
