//! The aggregate per-asset pool ledger.
//!
//! A pool tracks cumulative deposits and withdrawals, the amount currently
//! escrowed, transfer counters and collected fees. Conservation is enforced
//! here and nowhere else: every deposit and withdrawal goes through checked
//! arithmetic on both the cumulative total and the escrowed amount, so
//! `total_escrowed == total_deposits - total_withdrawals` holds at every
//! observation point.

use vstd::prelude::*;
use vstd::arithmetic::div_mod::{lemma_div_is_ordered, lemma_div_by_multiple, lemma_div_pos_is_pos};
use vstd::arithmetic::mul::{lemma_mul_inequality, lemma_mul_upper_bound, lemma_mul_nonnegative};
use crate::constants::{BPS_DENOMINATOR, MAX_FEE_BPS};
use crate::errors::HandshakeError;

verus! {

/// Aggregate ledger for one asset: identity, fee configuration, cumulative
/// accounting counters and the emergency paused flag.
#[derive(Clone, Copy, Debug, PartialEq, Eq, Structural)]
pub struct Pool {
    /// Layout version, for upgrades.
    pub version: u8,
    /// Unique pool identifier.
    pub pool_id: u64,
    /// The privileged administrator: may pause, reject, destroy, sweep fees,
    /// reset and close.
    pub operator: u64,
    /// The asset this pool escrows.
    pub mint: u64,
    /// Fee charged on claims, in basis points (0-10000).
    pub transfer_fee_bps: u16,
    /// Cumulative deposits.
    pub total_deposits: u64,
    /// Cumulative withdrawals.
    pub total_withdrawals: u64,
    /// Amount currently held in escrow.
    pub total_escrowed: u64,
    /// Transfers created over the pool's lifetime.
    pub total_transfers_created: u64,
    /// Transfers driven to a terminal status over the pool's lifetime.
    pub total_transfers_resolved: u64,
    /// Fees collected on claims and not yet swept by the operator.
    pub collected_fees: u64,
    /// While set, new transfer creation is blocked and the emergency destroy
    /// path is enabled; normal resolution is unaffected.
    pub is_paused: bool,
}

/// The floor-rounded claim fee: `floor(amount * bps / BPS_DENOMINATOR)`,
/// and 0 when the rate is 0.
pub open spec fn spec_fee(amount: u64, bps: u16) -> int {
    if bps == 0 {
        0
    } else {
        ((amount as int) * (bps as int)) / (BPS_DENOMINATOR as int)
    }
}

/// The fee never exceeds the amount while the rate stays at or under 100%,
/// and it is never negative.
pub proof fn lemma_fee_le_amount(amount: u64, bps: u16)
    requires
        bps <= MAX_FEE_BPS,
    ensures
        0 <= spec_fee(amount, bps) <= amount,
{
    if bps != 0 {
        let a = amount as int;
        let b = bps as int;
        let d = BPS_DENOMINATOR as int;
        lemma_mul_nonnegative(a, b);
        lemma_div_pos_is_pos(a * b, d);
        lemma_mul_inequality(b, d, a);
        lemma_div_is_ordered(a * b, a * d, d);
        lemma_div_by_multiple(a, d);
    }
}

impl Pool {
    /// Well-formedness: the fee rate is a valid basis-point rate and the
    /// escrow-conservation equation holds.
    pub open spec fn wf(self) -> bool {
        &&& self.transfer_fee_bps <= MAX_FEE_BPS
        &&& self.total_escrowed == self.total_deposits - self.total_withdrawals
    }

    /// Outstanding transfers: created and not yet resolved.
    pub open spec fn spec_outstanding(self) -> int {
        self.total_transfers_created - self.total_transfers_resolved
    }

    /// The pool after recording a deposit of `amount`.
    pub open spec fn with_deposit(self, amount: u64) -> Pool {
        Pool {
            total_deposits: (self.total_deposits + amount) as u64,
            total_escrowed: (self.total_escrowed + amount) as u64,
            ..self
        }
    }

    /// The pool after recording a withdrawal of `amount`.
    pub open spec fn with_withdrawal(self, amount: u64) -> Pool {
        Pool {
            total_withdrawals: (self.total_withdrawals + amount) as u64,
            total_escrowed: (self.total_escrowed - amount) as u64,
            ..self
        }
    }

    /// Compute the claim fee for `amount` under this pool's fee rate, using a
    /// widened intermediate so the multiplication cannot overflow.
    pub fn calculate_transfer_fee(&self, amount: u64) -> (fee: u64)
        requires
            self.transfer_fee_bps <= MAX_FEE_BPS,
        ensures
            fee == spec_fee(amount, self.transfer_fee_bps),
            fee <= amount,
    {
        proof {
            lemma_fee_le_amount(amount, self.transfer_fee_bps);
            lemma_mul_upper_bound(
                amount as int,
                u64::MAX as int,
                self.transfer_fee_bps as int,
                MAX_FEE_BPS as int,
            );
        }
        if self.transfer_fee_bps == 0 {
            return 0;
        }
        let wide: u128 = (amount as u128) * (self.transfer_fee_bps as u128);
        let fee: u128 = wide / (BPS_DENOMINATOR as u128);
        fee as u64
    }

    /// Count one more transfer as created.
    pub fn increment_transfers_created(&mut self) -> (r: Result<(), HandshakeError>)
        ensures
            match r {
                Ok(()) => {
                    &&& old(self).total_transfers_created < u64::MAX
                    &&& *final(self) == (Pool {
                        total_transfers_created: (old(self).total_transfers_created + 1) as u64,
                        ..*old(self)
                    })
                },
                Err(e) => {
                    &&& e == HandshakeError::MathOverflow
                    &&& old(self).total_transfers_created == u64::MAX
                    &&& *final(self) == *old(self)
                },
            },
    {
        match self.total_transfers_created.checked_add(1) {
            Some(n) => {
                self.total_transfers_created = n;
                Ok(())
            },
            None => Err(HandshakeError::MathOverflow),
        }
    }

    /// Count one more transfer as resolved.
    pub fn increment_transfers_resolved(&mut self) -> (r: Result<(), HandshakeError>)
        ensures
            match r {
                Ok(()) => {
                    &&& old(self).total_transfers_resolved < u64::MAX
                    &&& *final(self) == (Pool {
                        total_transfers_resolved: (old(self).total_transfers_resolved + 1) as u64,
                        ..*old(self)
                    })
                },
                Err(e) => {
                    &&& e == HandshakeError::MathOverflow
                    &&& old(self).total_transfers_resolved == u64::MAX
                    &&& *final(self) == *old(self)
                },
            },
    {
        match self.total_transfers_resolved.checked_add(1) {
            Some(n) => {
                self.total_transfers_resolved = n;
                Ok(())
            },
            None => Err(HandshakeError::MathOverflow),
        }
    }

    /// Record a deposit: both the cumulative total and the escrowed amount
    /// grow by `amount`, or nothing changes at all. This is one of the two
    /// places escrow conservation is enforced.
    pub fn add_deposit(&mut self, amount: u64) -> (r: Result<(), HandshakeError>)
        ensures
            match r {
                Ok(()) => {
                    &&& old(self).total_deposits + amount <= u64::MAX
                    &&& old(self).total_escrowed + amount <= u64::MAX
                    &&& *final(self) == old(self).with_deposit(amount)
                },
                Err(e) => {
                    &&& e == HandshakeError::MathOverflow
                    &&& (old(self).total_deposits + amount > u64::MAX
                        || old(self).total_escrowed + amount > u64::MAX)
                    &&& *final(self) == *old(self)
                },
            },
            old(self).wf() && r is Ok ==> final(self).wf(),
    {
        let deposits = match self.total_deposits.checked_add(amount) {
            Some(n) => n,
            None => {
                return Err(HandshakeError::MathOverflow);
            },
        };
        let escrowed = match self.total_escrowed.checked_add(amount) {
            Some(n) => n,
            None => {
                return Err(HandshakeError::MathOverflow);
            },
        };
        self.total_deposits = deposits;
        self.total_escrowed = escrowed;
        Ok(())
    }

    /// Record a withdrawal: the cumulative total grows and the escrowed
    /// amount shrinks by `amount`, or nothing changes at all. Underflow of
    /// the escrowed amount is a fatal error, never clamped.
    pub fn add_withdrawal(&mut self, amount: u64) -> (r: Result<(), HandshakeError>)
        ensures
            match r {
                Ok(()) => {
                    &&& old(self).total_withdrawals + amount <= u64::MAX
                    &&& amount <= old(self).total_escrowed
                    &&& *final(self) == old(self).with_withdrawal(amount)
                },
                Err(e) => {
                    &&& e == HandshakeError::MathOverflow
                    &&& (old(self).total_withdrawals + amount > u64::MAX
                        || amount > old(self).total_escrowed)
                    &&& *final(self) == *old(self)
                },
            },
            old(self).wf() && r is Ok ==> final(self).wf(),
    {
        let withdrawals = match self.total_withdrawals.checked_add(amount) {
            Some(n) => n,
            None => {
                return Err(HandshakeError::MathOverflow);
            },
        };
        let escrowed = match self.total_escrowed.checked_sub(amount) {
            Some(n) => n,
            None => {
                return Err(HandshakeError::MathOverflow);
            },
        };
        self.total_withdrawals = withdrawals;
        self.total_escrowed = escrowed;
        Ok(())
    }

    /// Accumulate a claim fee into the collected-fees counter.
    pub fn add_collected_fees(&mut self, amount: u64) -> (r: Result<(), HandshakeError>)
        ensures
            match r {
                Ok(()) => {
                    &&& old(self).collected_fees + amount <= u64::MAX
                    &&& *final(self) == (Pool {
                        collected_fees: (old(self).collected_fees + amount) as u64,
                        ..*old(self)
                    })
                },
                Err(e) => {
                    &&& e == HandshakeError::MathOverflow
                    &&& old(self).collected_fees + amount > u64::MAX
                    &&& *final(self) == *old(self)
                },
            },
    {
        match self.collected_fees.checked_add(amount) {
            Some(n) => {
                self.collected_fees = n;
                Ok(())
            },
            None => Err(HandshakeError::MathOverflow),
        }
    }

    /// Zero the collected-fees counter after the operator sweeps them.
    pub fn reset_collected_fees(&mut self)
        ensures
            *final(self) == (Pool { collected_fees: 0u64, ..*old(self) }),
    {
        self.collected_fees = 0;
    }

    /// Whether any transfer has been created and not yet resolved. While
    /// true, destructive administrative operations (close, reset) are blocked.
    pub fn has_outstanding_transfers(&self) -> (r: bool)
        ensures
            r == (self.total_transfers_created > self.total_transfers_resolved),
    {
        self.total_transfers_created > self.total_transfers_resolved
    }
}

} // verus!
