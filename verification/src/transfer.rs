//! The per-escrow transfer record and its lifecycle state machine.
//!
//! A record starts `Active` and moves exactly once to one of the terminal
//! statuses; no transition leaves a terminal status. All time-gated behavior
//! is evaluated against a current time the host supplies at the moment of the
//! call; a claim-window bound of 0 (or below) means unbounded on that side.

use vstd::prelude::*;
use crate::constants::MEMO_SIZE;
use crate::errors::HandshakeError;

verus! {

/// Lifecycle status of a transfer record. `Active` is the only state that
/// admits a transition; the rest are terminal.
#[derive(Clone, Copy, Debug, PartialEq, Eq, Structural)]
pub enum TransferStatus {
    /// Escrowed and awaiting resolution.
    Active,
    /// The recipient claimed the amount (minus the fee).
    Claimed,
    /// The sender took the escrow back.
    Cancelled,
    /// The operator refunded the sender, or the emergency destroy path swept
    /// the escrow to the operator.
    Rejected,
    /// The claim deadline passed and the escrow was refunded to the sender.
    Expired,
    /// The recipient refused the transfer; the sender was refunded.
    Declined,
}

impl TransferStatus {
    /// Whether this status admits no further transition.
    pub open spec fn is_terminal(self) -> bool {
        self != TransferStatus::Active
    }
}

/// Reserved release-condition kinds. Declared for forward compatibility; no
/// resolving transition consults them.
#[derive(Clone, Copy, Debug, PartialEq, Eq, Structural)]
pub enum ConditionType {
    /// Release after a specific timestamp.
    TimeDelay,
    /// Require M of N signatures.
    MultiSig,
    /// External oracle confirmation.
    Oracle,
    /// External milestone verification.
    Milestone,
}

/// Reserved structured release conditions; currently inert.
#[derive(Clone, Debug)]
pub struct ReleaseConditions {
    /// Which kind of condition the parameters describe.
    pub condition_type: ConditionType,
    /// Condition parameters, interpreted per kind.
    pub params: Vec<u8>,
}

/// One sender-to-recipient escrowed payment with its own lifecycle.
#[derive(Clone, Debug)]
pub struct SecureTransfer {
    /// Layout version, for upgrades.
    pub version: u8,
    /// Caller-chosen nonce distinguishing otherwise-identical transfers.
    pub nonce: u64,
    /// Who locked the value.
    pub sender: u64,
    /// Who may claim it.
    pub recipient: u64,
    /// Back-reference to the pool this transfer belongs to, validated on
    /// every resolving call.
    pub pool: u64,
    /// Escrowed amount; always positive.
    pub amount: u64,
    /// When the record was created.
    pub created_at: i64,
    /// Lower claim-window bound; 0 means claimable immediately.
    pub claimable_after: i64,
    /// Upper claim-window bound; 0 means no deadline.
    pub claimable_until: i64,
    /// Lifecycle status.
    pub status: TransferStatus,
    /// Reserved, currently-unenforced release conditions.
    pub release_conditions: Option<ReleaseConditions>,
    /// Fixed-size memo, zero-padded to `MEMO_SIZE` bytes.
    pub memo: Vec<u8>,
    /// Reserved compliance-data hash.
    pub compliance_hash: Option<Vec<u8>>,
}

/// Whether a claim window supplied at creation is acceptable: if both bounds
/// are set, the lower one comes strictly first, and a set bound may not
/// already be in the past.
pub open spec fn valid_window(claimable_after: i64, claimable_until: i64, now: i64) -> bool {
    &&& (claimable_after > 0 && claimable_until > 0) ==> claimable_after < claimable_until
    &&& claimable_after > 0 ==> claimable_after >= now
    &&& claimable_until > 0 ==> claimable_until >= now
}

impl SecureTransfer {
    /// Well-formedness: a positive amount, a fixed-size memo and a
    /// consistent claim window.
    pub open spec fn wf(self) -> bool {
        &&& self.amount > 0
        &&& self.memo@.len() == MEMO_SIZE
        &&& (self.claimable_after > 0 && self.claimable_until > 0)
            ==> self.claimable_after < self.claimable_until
    }

    /// Whether `now` falls within the claim window `[claimable_after,
    /// claimable_until)`, an unset (non-positive) bound being unbounded on
    /// that side.
    pub open spec fn window_open(self, now: i64) -> bool {
        &&& self.claimable_after > 0 ==> now >= self.claimable_after
        &&& self.claimable_until > 0 ==> now < self.claimable_until
    }

    /// Whether the record may be expired: a deadline is set and `now` is
    /// strictly past it.
    pub open spec fn spec_expired(self, now: i64) -> bool {
        self.claimable_until > 0 && now > self.claimable_until
    }

    /// Build a fresh `Active` record, rejecting an oversized memo or an
    /// inconsistent or already-past claim window. The memo is zero-padded to
    /// `MEMO_SIZE` bytes.
    pub fn initialize(
        nonce: u64,
        sender: u64,
        recipient: u64,
        pool: u64,
        amount: u64,
        memo: &Vec<u8>,
        claimable_after: i64,
        claimable_until: i64,
        now: i64,
    ) -> (r: Result<SecureTransfer, HandshakeError>)
        ensures
            match r {
                Ok(t) => {
                    &&& memo@.len() <= MEMO_SIZE
                    &&& valid_window(claimable_after, claimable_until, now)
                    &&& t.version == 1
                    &&& t.nonce == nonce
                    &&& t.sender == sender
                    &&& t.recipient == recipient
                    &&& t.pool == pool
                    &&& t.amount == amount
                    &&& t.created_at == now
                    &&& t.claimable_after == claimable_after
                    &&& t.claimable_until == claimable_until
                    &&& t.status == TransferStatus::Active
                    &&& t.release_conditions is None
                    &&& t.compliance_hash is None
                    &&& t.memo@.len() == MEMO_SIZE
                    &&& (forall|i: int| 0 <= i < memo@.len() ==> t.memo@[i] == memo@[i])
                    &&& (forall|i: int| memo@.len() <= i < MEMO_SIZE ==> t.memo@[i] == 0u8)
                    &&& (amount > 0 ==> t.wf())
                },
                Err(e) => {
                    if memo@.len() > MEMO_SIZE {
                        e == HandshakeError::InvalidMemoLength
                    } else {
                        &&& e == HandshakeError::InvalidTimeWindow
                        &&& !valid_window(claimable_after, claimable_until, now)
                    }
                },
            },
    {
        if memo.len() > MEMO_SIZE {
            return Err(HandshakeError::InvalidMemoLength);
        }
        if claimable_after > 0 && claimable_until > 0 && claimable_after >= claimable_until {
            return Err(HandshakeError::InvalidTimeWindow);
        }
        if claimable_after > 0 && claimable_after < now {
            return Err(HandshakeError::InvalidTimeWindow);
        }
        if claimable_until > 0 && claimable_until < now {
            return Err(HandshakeError::InvalidTimeWindow);
        }
        let mut padded: Vec<u8> = Vec::new();
        let mut i: usize = 0;
        while i < MEMO_SIZE
            invariant
                i <= MEMO_SIZE,
                padded@.len() == i,
                memo@.len() <= MEMO_SIZE,
                forall|j: int| 0 <= j < i && j < memo@.len() ==> padded@[j] == memo@[j],
                forall|j: int| memo@.len() <= j < i ==> padded@[j] == 0u8,
            decreases MEMO_SIZE - i,
        {
            if i < memo.len() {
                padded.push(memo[i]);
            } else {
                padded.push(0u8);
            }
            i = i + 1;
        }
        Ok(SecureTransfer {
            version: 1,
            nonce,
            sender,
            recipient,
            pool,
            amount,
            created_at: now,
            claimable_after,
            claimable_until,
            status: TransferStatus::Active,
            release_conditions: None,
            memo: padded,
            compliance_hash: None,
        })
    }

    /// Guard every resolving transition: only an `Active` record may move.
    pub fn validate_active(&self) -> (r: Result<(), HandshakeError>)
        ensures
            match r {
                Ok(()) => self.status == TransferStatus::Active,
                Err(e) => {
                    &&& e == HandshakeError::TransferNotActive
                    &&& self.status != TransferStatus::Active
                },
            },
    {
        if self.status == TransferStatus::Active {
            Ok(())
        } else {
            Err(HandshakeError::TransferNotActive)
        }
    }

    /// Check that `now` falls within the claim window.
    pub fn validate_claim_window(&self, now: i64) -> (r: Result<(), HandshakeError>)
        ensures
            match r {
                Ok(()) => self.window_open(now),
                Err(e) => {
                    &&& e == HandshakeError::CannotClaim
                    &&& !self.window_open(now)
                },
            },
    {
        if self.claimable_after > 0 && now < self.claimable_after {
            return Err(HandshakeError::CannotClaim);
        }
        if self.claimable_until > 0 && now >= self.claimable_until {
            return Err(HandshakeError::CannotClaim);
        }
        Ok(())
    }

    /// Whether the record's claim deadline is set and strictly past.
    pub fn is_expired(&self, now: i64) -> (r: bool)
        ensures
            r == self.spec_expired(now),
    {
        self.claimable_until > 0 && now > self.claimable_until
    }

    /// Check that `sender` is the original sender and the record is still
    /// `Active`; the authorization check comes first, so a stranger learns
    /// only that they may not cancel.
    pub fn validate_sender_can_cancel(&self, sender: u64) -> (r: Result<(), HandshakeError>)
        ensures
            match r {
                Ok(()) => sender == self.sender && self.status == TransferStatus::Active,
                Err(e) => {
                    if sender != self.sender {
                        e == HandshakeError::OnlySenderCanCancel
                    } else {
                        &&& e == HandshakeError::TransferNotActive
                        &&& self.status != TransferStatus::Active
                    }
                },
            },
    {
        if sender != self.sender {
            return Err(HandshakeError::OnlySenderCanCancel);
        }
        self.validate_active()
    }

    /// Check that `recipient` is the designated recipient, the record is
    /// still `Active`, and the claim window is open.
    pub fn validate_recipient_can_claim(&self, recipient: u64, now: i64) -> (r: Result<
        (),
        HandshakeError,
    >)
        ensures
            match r {
                Ok(()) => {
                    &&& recipient == self.recipient
                    &&& self.status == TransferStatus::Active
                    &&& self.window_open(now)
                },
                Err(e) => {
                    if recipient != self.recipient {
                        e == HandshakeError::OnlyRecipientCanClaim
                    } else if self.status != TransferStatus::Active {
                        e == HandshakeError::TransferNotActive
                    } else {
                        &&& e == HandshakeError::CannotClaim
                        &&& !self.window_open(now)
                    }
                },
            },
    {
        if recipient != self.recipient {
            return Err(HandshakeError::OnlyRecipientCanClaim);
        }
        self.validate_active()?;
        self.validate_claim_window(now)
    }

    /// Move an `Active` record to `Claimed`.
    pub fn mark_as_claimed(&mut self) -> (r: Result<(), HandshakeError>)
        ensures
            final(self).transition_spec(*old(self), r, TransferStatus::Claimed),
    {
        self.mark_as(TransferStatus::Claimed)
    }

    /// Move an `Active` record to `Cancelled`.
    pub fn mark_as_cancelled(&mut self) -> (r: Result<(), HandshakeError>)
        ensures
            final(self).transition_spec(*old(self), r, TransferStatus::Cancelled),
    {
        self.mark_as(TransferStatus::Cancelled)
    }

    /// Move an `Active` record to `Rejected`.
    pub fn mark_as_rejected(&mut self) -> (r: Result<(), HandshakeError>)
        ensures
            final(self).transition_spec(*old(self), r, TransferStatus::Rejected),
    {
        self.mark_as(TransferStatus::Rejected)
    }

    /// Move an `Active` record to `Expired`.
    pub fn mark_as_expired(&mut self) -> (r: Result<(), HandshakeError>)
        ensures
            final(self).transition_spec(*old(self), r, TransferStatus::Expired),
    {
        self.mark_as(TransferStatus::Expired)
    }

    /// Move an `Active` record to `Declined`.
    pub fn mark_as_declined(&mut self) -> (r: Result<(), HandshakeError>)
        ensures
            final(self).transition_spec(*old(self), r, TransferStatus::Declined),
    {
        self.mark_as(TransferStatus::Declined)
    }

    /// What every `mark_as_*` transition guarantees: it succeeds exactly on
    /// an `Active` record, moves only the status field, and on failure
    /// reports `TransferNotActive` and changes nothing.
    pub open spec fn transition_spec(
        self,
        pre: SecureTransfer,
        r: Result<(), HandshakeError>,
        target: TransferStatus,
    ) -> bool {
        match r {
            Ok(()) => {
                &&& pre.status == TransferStatus::Active
                &&& self == (SecureTransfer { status: target, ..pre })
            },
            Err(e) => {
                &&& e == HandshakeError::TransferNotActive
                &&& pre.status != TransferStatus::Active
                &&& self == pre
            },
        }
    }

    /// The one place a status is ever written: `Active` moves to `target`,
    /// anything else is refused.
    fn mark_as(&mut self, target: TransferStatus) -> (r: Result<(), HandshakeError>)
        ensures
            final(self).transition_spec(*old(self), r, target),
    {
        self.validate_active()?;
        self.status = target;
        Ok(())
    }
}

} // verus!
