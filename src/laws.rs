//! Properties of the ledger that hold across operations.

use vstd::prelude::*;
use crate::allowance::{
    allowance_in, allowance_key, allowance_written, expiration_invalid,
    lemma_allowance_key_injective,
};
use crate::contract::Token;
use crate::env::Env;
use crate::storage_types::{Address, AllowanceEntry, TokenError};

verus! {

broadcast use vstd::std_specs::hash::group_hash_axioms;

/// Every balance of a well-formed ledger is non-negative. Every operation
/// keeps the ledger well-formed, so this holds after any sequence of them.
pub proof fn lemma_balances_nonnegative(t: &Token)
    requires
        t.wf(),
    ensures
        forall|a: Address| #[trigger] t.balance_of(a) >= 0,
{
    assert forall|a: Address| #[trigger] t.balance_of(a) >= 0 by {
        if t.balances@.contains_key(a.id) {
            assert(t.balances@[a.id].amount >= 0);
        }
    }
}

/// Every allowance of a well-formed ledger reads as non-negative, at any ledger.
pub proof fn lemma_allowances_nonnegative(t: &Token)
    requires
        t.wf(),
    ensures
        forall|from: Address, spender: Address, now: u32| #[trigger]
            t.allowance_of(from, spender, now).amount >= 0,
{
    assert forall|from: Address, spender: Address, now: u32| #[trigger]
        t.allowance_of(from, spender, now).amount >= 0 by {
        let k = allowance_key(from, spender);
        if t.allowances@.contains_key(k) {
            assert(t.allowances@[k].value.amount >= 0);
        }
    }
}

/// Spending a non-negative amount out of an allowance lowers it by exactly
/// that amount, and never below zero.
pub proof fn lemma_spend_lowers_allowance(
    m: Map<u128, AllowanceEntry>,
    from: Address,
    spender: Address,
    amount: i128,
    now: u32,
)
    requires
        0 <= amount <= allowance_in(m, from, spender, now).amount,
    ensures
        ({
            let current = allowance_in(m, from, spender, now);
            let after = allowance_written(
                m,
                from,
                spender,
                (current.amount - amount) as i128,
                current.expiration_ledger,
                now,
            );
            &&& allowance_in(after, from, spender, now).amount == current.amount - amount
            &&& 0 <= allowance_in(after, from, spender, now).amount <= current.amount
        }),
{
}

/// Writing the allowance of one (owner, spender) pair leaves the allowance of
/// every other pair as it was.
pub proof fn lemma_write_leaves_other_allowances(
    m: Map<u128, AllowanceEntry>,
    from: Address,
    spender: Address,
    amount: i128,
    expiration: u32,
    now: u32,
    other_from: Address,
    other_spender: Address,
    later: u32,
)
    requires
        other_from != from || other_spender != spender,
    ensures
        allowance_in(
            allowance_written(m, from, spender, amount, expiration, now),
            other_from,
            other_spender,
            later,
        ) == allowance_in(m, other_from, other_spender, later),
{
    lemma_allowance_key_injective(from, spender, other_from, other_spender);
}

/// An allowance written at ledger `now` with expiration ledger `expiration`
/// reads as zero at every later ledger past `expiration`, although its stored
/// record still holds the amount: expiry is decided by the read alone.
pub proof fn lemma_lazy_expiry(
    m: Map<u128, AllowanceEntry>,
    from: Address,
    spender: Address,
    amount: i128,
    expiration: u32,
    now: u32,
    later: u32,
)
    requires
        !expiration_invalid(amount as int, expiration, now),
        expiration < later,
    ensures
        ({
            let after = allowance_written(m, from, spender, amount, expiration, now);
            &&& allowance_in(after, from, spender, later).amount == 0
            &&& allowance_in(after, from, spender, later).expiration_ledger == expiration
            &&& after[allowance_key(from, spender)].value.amount == amount
        }),
{
}

/// On an initialized ledger, a frozen account can still be minted to, while
/// every transfer or burn out of it fails with `AccountFrozen` once the call is
/// authorized and the amount is non-negative.
pub proof fn lemma_freeze_blocks_transfer_not_mint(
    t: &Token,
    e: &Env,
    account: Address,
    spender: Address,
    to: Address,
    minted: i128,
    moved: i128,
)
    requires
        t.is_initialized(),
        t.is_frozen(account),
        e.is_authorized(t.admin->Some_0),
        e.is_authorized(account),
        e.is_authorized(spender),
        minted >= 0,
        t.balance_of(account) + minted <= i128::MAX,
        moved >= 0,
    ensures
        t.mint_error(e, account, minted) is None,
        t.transfer_error(e, account, to, moved) == Some(TokenError::AccountFrozen),
        t.burn_error(e, account, moved) == Some(TokenError::AccountFrozen),
        t.transfer_from_error(e, spender, account, to, moved) == Some(TokenError::AccountFrozen),
        t.burn_from_error(e, spender, account, moved) == Some(TokenError::AccountFrozen),
{
}

} // verus!
