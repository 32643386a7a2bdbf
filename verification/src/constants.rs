//! Protocol-wide constants.

use vstd::prelude::*;

verus! {

/// Fee rates are expressed in basis points; 10000 bps = 100%.
pub const MAX_FEE_BPS: u16 = 10000;

/// Denominator of the fee formula: `fee = floor(amount * bps / BPS_DENOMINATOR)`.
pub const BPS_DENOMINATOR: u64 = 10000;

/// Fixed byte size of a transfer record's memo; shorter memos are
/// zero-padded to this length.
pub const MEMO_SIZE: usize = 64;

} // verus!
