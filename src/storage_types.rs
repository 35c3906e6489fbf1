//! Keys, stored values, errors and events of the ledger.

use vstd::prelude::*;

verus! {

/// Number of ledgers closed in a day, at about five seconds per ledger.
pub const DAY_IN_LEDGERS: u32 = 17280;

/// Retention granted to the instance footprint (admin, metadata, freeze flags)
/// whenever it is renewed.
pub const INSTANCE_BUMP_AMOUNT: u32 = 7 * DAY_IN_LEDGERS;

/// The instance footprint is renewed once its remaining retention falls below this.
pub const INSTANCE_LIFETIME_THRESHOLD: u32 = INSTANCE_BUMP_AMOUNT - DAY_IN_LEDGERS;

/// Retention granted to a balance entry whenever it is renewed.
pub const BALANCE_BUMP_AMOUNT: u32 = 30 * DAY_IN_LEDGERS;

/// A balance entry is renewed once its remaining retention falls below this.
pub const BALANCE_LIFETIME_THRESHOLD: u32 = BALANCE_BUMP_AMOUNT - DAY_IN_LEDGERS;

/// An opaque principal: an account or a contract.
#[derive(Clone, Copy, Debug, PartialEq, Eq, Structural, Hash)]
pub struct Address {
    pub id: u64,
}

/// Identifies the allowance that `from` granted to `spender`.
#[derive(Clone, Copy, Debug, PartialEq, Eq, Structural, Hash)]
pub struct AllowanceDataKey {
    pub from: Address,
    pub spender: Address,
}

/// An allowance as stored: an amount and the last ledger on which it may be spent.
#[derive(Clone, Copy, Debug, PartialEq, Eq, Structural)]
pub struct AllowanceValue {
    pub amount: i128,
    pub expiration_ledger: u32,
}

/// The logical key space of the ledger's storage.
#[derive(Clone, Copy, Debug, PartialEq, Eq, Structural, Hash)]
pub enum DataKey {
    Allowance(AllowanceDataKey),
    Balance(Address),
    Admin,
    Frozen(Address),
}

/// Everything that makes an operation fail. A failed operation has no effect.
#[derive(Clone, Copy, Debug, PartialEq, Eq, Structural)]
pub enum TokenError {
    AlreadyInitialized,
    InvalidDecimalRange,
    NegativeAmount,
    InsufficientBalance,
    InsufficientAllowance,
    InvalidExpiration,
    AccountFrozen,
    Unauthorized,
    UninitializedLedger,
    /// A balance would leave the range of `i128`.
    Overflow,
}

/// What a successful operation publishes.
#[derive(Clone, Copy, Debug, PartialEq, Eq, Structural)]
pub enum Event {
    Mint { admin: Address, to: Address, amount: i128 },
    SetAdmin { admin: Address, new_admin: Address },
    Approve { from: Address, spender: Address, amount: i128, expiration_ledger: u32 },
    Transfer { from: Address, to: Address, amount: i128 },
    Burn { from: Address, amount: i128 },
    FreezeAccount { admin: Address, account: Address },
    UnfreezeAccount { admin: Address, account: Address },
}

/// A balance as stored, with the last ledger its storage entry is retained to.
#[derive(Clone, Copy, Debug, PartialEq, Eq, Structural)]
pub struct BalanceEntry {
    pub amount: i128,
    pub live_until: u64,
}

/// An allowance as stored, with the last ledger its storage entry is retained to.
#[derive(Clone, Copy, Debug, PartialEq, Eq, Structural)]
pub struct AllowanceEntry {
    pub value: AllowanceValue,
    pub live_until: u64,
}

/// Retention after a renewal request: when fewer than `threshold` ledgers of
/// retention remain at ledger `now`, the entry is kept for `bump` ledgers from now.
pub open spec fn renewed(live_until: u64, now: u32, threshold: u32, bump: u32) -> u64 {
    if (live_until as int) < now + threshold {
        (now + bump) as u64
    } else {
        live_until
    }
}

/// Renews a retention window, as `renewed` states.
pub fn extend_ttl(live_until: u64, now: u32, threshold: u32, bump: u32) -> (r: u64)
    ensures
        r == renewed(live_until, now, threshold, bump),
{
    if live_until < now as u64 + threshold as u64 {
        now as u64 + bump as u64
    } else {
        live_until
    }
}

} // verus!
