//! The allowance store: per (owner, spender) an amount and an expiration
//! ledger, in the auto-expiring tier. An allowance past its expiration ledger
//! reads as zero; nothing rewrites it.

use vstd::prelude::*;
use crate::contract::Token;
use crate::env::Env;
use crate::storage_types::{Address, AllowanceEntry, AllowanceValue, TokenError};

verus! {

broadcast use vstd::std_specs::hash::group_hash_axioms;

/// The storage key of the allowance that `from` granted to `spender`.
pub open spec fn allowance_key(from: Address, spender: Address) -> u128 {
    (from.id * 0x1_0000_0000_0000_0000 + spender.id) as u128
}

/// Distinct (owner, spender) pairs have distinct storage keys.
pub proof fn lemma_allowance_key_injective(a: Address, b: Address, c: Address, d: Address)
    ensures
        allowance_key(a, b) == allowance_key(c, d) ==> a == c && b == d,
{
    let k: int = 0x1_0000_0000_0000_0000;
    assert(0 <= a.id * k + b.id < 0x1_0000_0000_0000_0000 * k) by (nonlinear_arith)
        requires
            k == 0x1_0000_0000_0000_0000,
            0 <= a.id < k,
            0 <= b.id < k,
    ;
    assert(0 <= c.id * k + d.id < 0x1_0000_0000_0000_0000 * k) by (nonlinear_arith)
        requires
            k == 0x1_0000_0000_0000_0000,
            0 <= c.id < k,
            0 <= d.id < k,
    ;
    if allowance_key(a, b) == allowance_key(c, d) {
        assert(a.id * k + b.id == c.id * k + d.id);
        assert(a.id == c.id && b.id == d.id) by (nonlinear_arith)
            requires
                a.id * k + b.id == c.id * k + d.id,
                0 <= b.id < k,
                0 <= d.id < k,
                0 <= a.id,
                0 <= c.id,
        ;
    }
}

/// Computes `allowance_key`.
pub fn allowance_storage_key(from: Address, spender: Address) -> (r: u128)
    ensures
        r == allowance_key(from, spender),
{
    assert(from.id * 0x1_0000_0000_0000_0000 + spender.id <= u128::MAX) by (nonlinear_arith)
        requires
            from.id <= u64::MAX,
            spender.id <= u64::MAX,
    ;
    from.id as u128 * 0x1_0000_0000_0000_0000u128 + spender.id as u128
}

/// The allowance that a read at ledger `now` reports: none stored reads as
/// amount 0 and expiration 0; one past its expiration ledger reads as amount 0
/// with its stored expiration.
pub open spec fn allowance_in(
    m: Map<u128, AllowanceEntry>,
    from: Address,
    spender: Address,
    now: u32,
) -> AllowanceValue {
    let k = allowance_key(from, spender);
    if !m.contains_key(k) {
        AllowanceValue { amount: 0, expiration_ledger: 0 }
    } else if m[k].value.expiration_ledger < now {
        AllowanceValue { amount: 0, expiration_ledger: m[k].value.expiration_ledger }
    } else {
        m[k].value
    }
}

/// The entries after `amount` and `expiration_ledger` were written for
/// (`from`, `spender`) at ledger `now`. A positive grant is retained exactly
/// until its expiration ledger; a zero one keeps the entry's retention.
pub open spec fn allowance_written(
    m: Map<u128, AllowanceEntry>,
    from: Address,
    spender: Address,
    amount: i128,
    expiration_ledger: u32,
    now: u32,
) -> Map<u128, AllowanceEntry> {
    let k = allowance_key(from, spender);
    let live_until = if amount > 0 {
        expiration_ledger as u64
    } else if m.contains_key(k) {
        m[k].live_until
    } else {
        now as u64
    };
    m.insert(
        k,
        AllowanceEntry { value: AllowanceValue { amount, expiration_ledger }, live_until },
    )
}

/// A positive grant written with an expiration ledger already past is refused.
pub open spec fn expiration_invalid(amount: int, expiration_ledger: u32, now: u32) -> bool {
    amount > 0 && expiration_ledger < now
}

/// The allowance that `from` granted to `spender`, as of the current ledger.
pub fn read_allowance(t: &Token, e: &Env, from: Address, spender: Address) -> (r: AllowanceValue)
    ensures
        r == allowance_in(t.allowances@, from, spender, e.sequence),
{
    let key = allowance_storage_key(from, spender);
    match t.allowances.get(&key) {
        Some(entry) => {
            if entry.value.expiration_ledger < e.sequence {
                AllowanceValue { amount: 0, expiration_ledger: entry.value.expiration_ledger }
            } else {
                entry.value
            }
        },
        None => AllowanceValue { amount: 0, expiration_ledger: 0 },
    }
}

/// Sets the allowance of `spender` over `from`'s balance, replacing any earlier
/// one. Fails with `InvalidExpiration`, and changes nothing, when a positive
/// amount would already be expired.
pub fn write_allowance(
    t: &mut Token,
    e: &Env,
    from: Address,
    spender: Address,
    amount: i128,
    expiration_ledger: u32,
) -> (r: Result<(), TokenError>)
    ensures
        expiration_invalid(amount as int, expiration_ledger, e.sequence) ==> {
            &&& r == Err::<(), TokenError>(TokenError::InvalidExpiration)
            &&& *final(t) == *old(t)
        },
        !expiration_invalid(amount as int, expiration_ledger, e.sequence) ==> {
            &&& r == Ok::<(), TokenError>(())
            &&& final(t).allowances@ == allowance_written(
                old(t).allowances@,
                from,
                spender,
                amount,
                expiration_ledger,
                e.sequence,
            )
            &&& final(t).balances@ == old(t).balances@
            &&& final(t).same_instance(old(t))
        },
{
    if amount > 0 && expiration_ledger < e.sequence {
        return Err(TokenError::InvalidExpiration);
    }
    let key = allowance_storage_key(from, spender);
    let live_until: u64 = if amount > 0 {
        let live_for: u32 = expiration_ledger - e.sequence;
        e.sequence as u64 + live_for as u64
    } else {
        match t.allowances.get(&key) {
            Some(entry) => entry.live_until,
            None => e.sequence as u64,
        }
    };
    let value = AllowanceValue { amount, expiration_ledger };
    t.allowances.insert(key, AllowanceEntry { value, live_until });
    Ok(())
}

/// Takes `amount` off the allowance of `spender` over `from`'s balance, keeping
/// its expiration ledger. Fails with `InsufficientAllowance` when the allowance
/// that a read reports is below `amount`; a failure changes nothing.
pub fn spend_allowance(t: &mut Token, e: &Env, from: Address, spender: Address, amount: i128) -> (r:
    Result<(), TokenError>)
    ensures
        ({
            let current = allowance_in(old(t).allowances@, from, spender, e.sequence);
            let rest = current.amount - amount;
            if current.amount < amount {
                &&& r == Err::<(), TokenError>(TokenError::InsufficientAllowance)
                &&& *final(t) == *old(t)
            } else if rest > i128::MAX {
                &&& r == Err::<(), TokenError>(TokenError::Overflow)
                &&& *final(t) == *old(t)
            } else if expiration_invalid(rest, current.expiration_ledger, e.sequence) {
                &&& r == Err::<(), TokenError>(TokenError::InvalidExpiration)
                &&& *final(t) == *old(t)
            } else {
                &&& r == Ok::<(), TokenError>(())
                &&& final(t).allowances@ == allowance_written(
                    old(t).allowances@,
                    from,
                    spender,
                    rest as i128,
                    current.expiration_ledger,
                    e.sequence,
                )
                &&& final(t).balances@ == old(t).balances@
                &&& final(t).same_instance(old(t))
            }
        }),
{
    let current = read_allowance(t, e, from, spender);
    if current.amount < amount {
        return Err(TokenError::InsufficientAllowance);
    }
    match current.amount.checked_sub(amount) {
        Some(rest) => write_allowance(t, e, from, spender, rest, current.expiration_ledger),
        None => Err(TokenError::Overflow),
    }
}

} // verus!
