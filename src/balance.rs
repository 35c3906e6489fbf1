//! The balance store: one signed amount per address, in the durable tier,
//! renewed on every read and write. An absent entry reads as zero.

use vstd::prelude::*;
use crate::contract::Token;
use crate::env::Env;
use crate::storage_types::{
    extend_ttl, renewed, Address, BalanceEntry, TokenError, BALANCE_BUMP_AMOUNT,
    BALANCE_LIFETIME_THRESHOLD,
};

verus! {

broadcast use vstd::std_specs::hash::group_hash_axioms;

/// The balance of `a` in the stored entries `m`.
pub open spec fn balance_in(m: Map<u64, BalanceEntry>, a: Address) -> int {
    if m.contains_key(a.id) {
        m[a.id].amount as int
    } else {
        0
    }
}

/// Retention of a balance entry after it was renewed at ledger `now`.
pub open spec fn balance_retention(live_until: u64, now: u32) -> u64 {
    renewed(live_until, now, BALANCE_LIFETIME_THRESHOLD, BALANCE_BUMP_AMOUNT)
}

/// The entries after a read of `a` at ledger `now`: an existing entry is renewed.
pub open spec fn balance_renewed(m: Map<u64, BalanceEntry>, a: Address, now: u32) -> Map<
    u64,
    BalanceEntry,
> {
    if m.contains_key(a.id) {
        m.insert(
            a.id,
            BalanceEntry {
                amount: m[a.id].amount,
                live_until: balance_retention(m[a.id].live_until, now),
            },
        )
    } else {
        m
    }
}

/// The entries after `amount` was written as the balance of `a` at ledger `now`.
pub open spec fn balance_written(m: Map<u64, BalanceEntry>, a: Address, amount: i128, now: u32) -> Map<
    u64,
    BalanceEntry,
> {
    let previous = if m.contains_key(a.id) {
        m[a.id].live_until
    } else {
        now as u64
    };
    m.insert(a.id, BalanceEntry { amount, live_until: balance_retention(previous, now) })
}

/// Writing the balance of `a` changes that balance alone.
pub proof fn lemma_balance_written(m: Map<u64, BalanceEntry>, a: Address, amount: i128, now: u32)
    ensures
        forall|b: Address| #[trigger]
            balance_in(balance_written(m, a, amount, now), b) == if b == a {
                amount as int
            } else {
                balance_in(m, b)
            },
{
    assert forall|b: Address| #[trigger]
        balance_in(balance_written(m, a, amount, now), b) == if b == a {
            amount as int
        } else {
            balance_in(m, b)
        } by {
        if b.id == a.id {
            assert(b == a);
        }
    }
}

/// A read changes no balance.
pub proof fn lemma_balance_renewed(m: Map<u64, BalanceEntry>, a: Address, now: u32)
    ensures
        forall|b: Address| #[trigger]
            balance_in(balance_renewed(m, a, now), b) == balance_in(m, b),
{
}

/// The balance of `addr`, leaving retention as it is.
pub(crate) fn peek_balance(t: &Token, addr: Address) -> (r: i128)
    ensures
        r == balance_in(t.balances@, addr),
{
    match t.balances.get(&addr.id) {
        Some(b) => b.amount,
        None => 0,
    }
}

/// The balance of `addr`; an existing entry has its retention renewed.
pub fn read_balance(t: &mut Token, e: &Env, addr: Address) -> (r: i128)
    ensures
        r == balance_in(old(t).balances@, addr),
        final(t).balances@ == balance_renewed(old(t).balances@, addr, e.sequence),
        final(t).allowances@ == old(t).allowances@,
        final(t).same_instance(old(t)),
{
    let found: Option<BalanceEntry> = match t.balances.get(&addr.id) {
        Some(b) => Some(*b),
        None => None,
    };
    match found {
        Some(b) => {
            let entry = BalanceEntry {
                amount: b.amount,
                live_until: extend_ttl(
                    b.live_until,
                    e.sequence,
                    BALANCE_LIFETIME_THRESHOLD,
                    BALANCE_BUMP_AMOUNT,
                ),
            };
            t.balances.insert(addr.id, entry);
            b.amount
        },
        None => 0,
    }
}

/// Stores `amount` as the balance of `addr` and renews the entry.
fn write_balance(t: &mut Token, e: &Env, addr: Address, amount: i128)
    ensures
        final(t).balances@ == balance_written(old(t).balances@, addr, amount, e.sequence),
        final(t).allowances@ == old(t).allowances@,
        final(t).same_instance(old(t)),
{
    let previous: u64 = match t.balances.get(&addr.id) {
        Some(b) => b.live_until,
        None => e.sequence as u64,
    };
    let live_until = extend_ttl(
        previous,
        e.sequence,
        BALANCE_LIFETIME_THRESHOLD,
        BALANCE_BUMP_AMOUNT,
    );
    t.balances.insert(addr.id, BalanceEntry { amount, live_until });
}

/// Credits `amount` to `addr`. Fails with `Overflow`, and changes nothing,
/// when the new balance would leave the range of `i128`.
pub fn receive_balance(t: &mut Token, e: &Env, addr: Address, amount: i128) -> (r: Result<
    (),
    TokenError,
>)
    ensures
        ({
            let new_amount = balance_in(old(t).balances@, addr) + amount;
            if i128::MIN <= new_amount <= i128::MAX {
                &&& r == Ok::<(), TokenError>(())
                &&& final(t).balances@ == balance_written(
                    old(t).balances@,
                    addr,
                    new_amount as i128,
                    e.sequence,
                )
                &&& final(t).allowances@ == old(t).allowances@
                &&& final(t).same_instance(old(t))
            } else {
                &&& r == Err::<(), TokenError>(TokenError::Overflow)
                &&& *final(t) == *old(t)
            }
        }),
{
    let balance = peek_balance(t, addr);
    match balance.checked_add(amount) {
        Some(new_amount) => {
            write_balance(t, e, addr, new_amount);
            Ok(())
        },
        None => Err(TokenError::Overflow),
    }
}

/// Debits `amount` from `addr`. Fails with `InsufficientBalance` when the balance
/// is below `amount`, with `Overflow` when the difference leaves the range of
/// `i128`; a failure changes nothing.
pub fn spend_balance(t: &mut Token, e: &Env, addr: Address, amount: i128) -> (r: Result<
    (),
    TokenError,
>)
    ensures
        ({
            let balance = balance_in(old(t).balances@, addr);
            if balance < amount {
                &&& r == Err::<(), TokenError>(TokenError::InsufficientBalance)
                &&& *final(t) == *old(t)
            } else if balance - amount > i128::MAX {
                &&& r == Err::<(), TokenError>(TokenError::Overflow)
                &&& *final(t) == *old(t)
            } else {
                &&& r == Ok::<(), TokenError>(())
                &&& final(t).balances@ == balance_written(
                    old(t).balances@,
                    addr,
                    (balance - amount) as i128,
                    e.sequence,
                )
                &&& final(t).allowances@ == old(t).allowances@
                &&& final(t).same_instance(old(t))
            }
        }),
{
    let balance = peek_balance(t, addr);
    if balance < amount {
        return Err(TokenError::InsufficientBalance);
    }
    match balance.checked_sub(amount) {
        Some(new_amount) => {
            write_balance(t, e, addr, new_amount);
            Ok(())
        },
        None => Err(TokenError::Overflow),
    }
}

} // verus!
