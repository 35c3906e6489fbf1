//! The ledger facade: every public operation of the token. Each operation
//! checks everything it needs before it writes, so that a failure leaves the
//! ledger exactly as it was.

use vstd::prelude::*;
use std::collections::{HashMap, HashSet};
use crate::admin::{has_administrator, read_administrator, write_administrator};
use crate::allowance::{
    allowance_in, allowance_key, allowance_storage_key, allowance_written, expiration_invalid,
    read_allowance, spend_allowance, write_allowance,
};
use crate::balance::{
    balance_in, balance_renewed, balance_written, lemma_balance_renewed, lemma_balance_written,
    peek_balance, read_balance, receive_balance, spend_balance,
};
use crate::env::Env;
use crate::metadata::{read_decimal, read_name, read_symbol, write_metadata, TokenMetadata};
use crate::storage_types::{
    extend_ttl, renewed, Address, AllowanceEntry, AllowanceValue, BalanceEntry, DataKey, Event,
    TokenError, INSTANCE_BUMP_AMOUNT, INSTANCE_LIFETIME_THRESHOLD,
};

verus! {

broadcast use vstd::std_specs::hash::group_hash_axioms;

/// The state of one token ledger: its instance footprint (administrator,
/// metadata, freeze flags and their shared retention), its balances and its
/// allowances.
pub struct Token {
    pub admin: Option<Address>,
    pub metadata: Option<TokenMetadata>,
    /// Ids of the frozen addresses.
    pub frozen: HashSet<u64>,
    /// Last ledger to which the instance footprint is retained.
    pub instance_live_until: u64,
    /// Balance entries by address id.
    pub balances: HashMap<u64, BalanceEntry>,
    /// Allowance entries by `allowance_key` of owner and spender.
    pub allowances: HashMap<u128, AllowanceEntry>,
}

/// The balances after `amount` moved from `from` to `to` at ledger `now`:
/// `from` is debited first, then `to` is credited.
pub open spec fn transferred(
    m: Map<u64, BalanceEntry>,
    from: Address,
    to: Address,
    amount: i128,
    now: u32,
) -> Map<u64, BalanceEntry> {
    let debited = balance_written(m, from, (balance_in(m, from) - amount) as i128, now);
    balance_written(debited, to, (balance_in(debited, to) + amount) as i128, now)
}

/// What `transfer` and `transfer_from` move keeps every balance in range.
pub open spec fn transfer_fits(m: Map<u64, BalanceEntry>, from: Address, to: Address, amount: i128) -> bool {
    from == to || balance_in(m, to) + amount <= i128::MAX
}

/// Rejects a negative amount.
pub fn check_nonnegative_amount(amount: i128) -> (r: Result<(), TokenError>)
    ensures
        r == (if amount < 0 { Err(TokenError::NegativeAmount) } else { Ok(()) }),
{
    if amount < 0 {
        Err(TokenError::NegativeAmount)
    } else {
        Ok(())
    }
}

/// Whether `account` is frozen.
fn is_account_frozen(t: &Token, account: Address) -> (r: bool)
    ensures
        r == t.is_frozen(account),
{
    t.frozen.contains(&account.id)
}

impl Token {
    /// The instance footprint of `self` and `o` is the same.
    pub open spec fn same_instance(&self, o: &Token) -> bool {
        &&& self.admin == o.admin
        &&& self.metadata == o.metadata
        &&& self.frozen@ == o.frozen@
        &&& self.instance_live_until == o.instance_live_until
    }

    /// An administrator is stored: `initialize` has succeeded.
    pub open spec fn is_initialized(&self) -> bool {
        self.admin is Some
    }

    /// The balance of `a`; zero when no entry is stored.
    pub open spec fn balance_of(&self, a: Address) -> int {
        balance_in(self.balances@, a)
    }

    /// The allowance of `spender` over `from`'s balance, as read at ledger `now`.
    pub open spec fn allowance_of(&self, from: Address, spender: Address, now: u32) -> AllowanceValue {
        allowance_in(self.allowances@, from, spender, now)
    }

    /// A freeze flag is stored for `a`.
    pub open spec fn is_frozen(&self, a: Address) -> bool {
        self.frozen@.contains(a.id)
    }

    /// Retention of the instance footprint after a renewal at ledger `now`.
    pub open spec fn instance_renewed(&self, now: u32) -> u64 {
        renewed(self.instance_live_until, now, INSTANCE_LIFETIME_THRESHOLD, INSTANCE_BUMP_AMOUNT)
    }

    /// Every stored balance and allowance is non-negative, the administrator
    /// and the metadata are stored together, and the decimal fits in 8 bits.
    pub open spec fn wf(&self) -> bool {
        &&& forall|k: u64| #[trigger]
            self.balances@.contains_key(k) ==> self.balances@[k].amount >= 0
        &&& forall|k: u128| #[trigger]
            self.allowances@.contains_key(k) ==> self.allowances@[k].value.amount >= 0
        &&& (self.admin is Some <==> self.metadata is Some)
        &&& (self.metadata is Some ==> self.metadata->Some_0.decimal <= 255)
    }

    /// `self` is `o` with the instance footprint renewed at ledger `now`.
    pub open spec fn renewed_from(&self, o: &Token, now: u32) -> bool {
        &&& self.admin == o.admin
        &&& self.metadata == o.metadata
        &&& self.frozen@ == o.frozen@
        &&& self.instance_live_until == o.instance_renewed(now)
    }

    /// Why `mint` fails, if it does: checks in the order they are made.
    pub open spec fn mint_error(&self, e: &Env, to: Address, amount: i128) -> Option<TokenError> {
        if amount < 0 {
            Some(TokenError::NegativeAmount)
        } else if !self.is_initialized() {
            Some(TokenError::UninitializedLedger)
        } else if !e.is_authorized(self.admin->Some_0) {
            Some(TokenError::Unauthorized)
        } else if self.balance_of(to) + amount > i128::MAX {
            Some(TokenError::Overflow)
        } else {
            None
        }
    }

    /// Why an operation reserved to the administrator fails, if it does.
    pub open spec fn admin_error(&self, e: &Env) -> Option<TokenError> {
        if !self.is_initialized() {
            Some(TokenError::UninitializedLedger)
        } else if !e.is_authorized(self.admin->Some_0) {
            Some(TokenError::Unauthorized)
        } else {
            None
        }
    }

    /// Why `approve` fails, if it does: checks in the order they are made.
    pub open spec fn approve_error(
        &self,
        e: &Env,
        from: Address,
        amount: i128,
        expiration_ledger: u32,
    ) -> Option<TokenError> {
        if !self.is_initialized() {
            Some(TokenError::UninitializedLedger)
        } else if !e.is_authorized(from) {
            Some(TokenError::Unauthorized)
        } else if amount < 0 {
            Some(TokenError::NegativeAmount)
        } else if expiration_invalid(amount as int, expiration_ledger, e.sequence) {
            Some(TokenError::InvalidExpiration)
        } else {
            None
        }
    }

    /// Why `transfer` fails, if it does: checks in the order they are made.
    pub open spec fn transfer_error(&self, e: &Env, from: Address, to: Address, amount: i128) -> Option<
        TokenError,
    > {
        if !self.is_initialized() {
            Some(TokenError::UninitializedLedger)
        } else if !e.is_authorized(from) {
            Some(TokenError::Unauthorized)
        } else if amount < 0 {
            Some(TokenError::NegativeAmount)
        } else if self.is_frozen(from) {
            Some(TokenError::AccountFrozen)
        } else if self.balance_of(from) < amount {
            Some(TokenError::InsufficientBalance)
        } else if !transfer_fits(self.balances@, from, to, amount) {
            Some(TokenError::Overflow)
        } else {
            None
        }
    }

    /// Why `transfer_from` fails, if it does: checks in the order they are made.
    pub open spec fn transfer_from_error(
        &self,
        e: &Env,
        spender: Address,
        from: Address,
        to: Address,
        amount: i128,
    ) -> Option<TokenError> {
        if !self.is_initialized() {
            Some(TokenError::UninitializedLedger)
        } else if !e.is_authorized(spender) {
            Some(TokenError::Unauthorized)
        } else if amount < 0 {
            Some(TokenError::NegativeAmount)
        } else if self.is_frozen(from) {
            Some(TokenError::AccountFrozen)
        } else if self.allowance_of(from, spender, e.sequence).amount < amount {
            Some(TokenError::InsufficientAllowance)
        } else if self.balance_of(from) < amount {
            Some(TokenError::InsufficientBalance)
        } else if !transfer_fits(self.balances@, from, to, amount) {
            Some(TokenError::Overflow)
        } else {
            None
        }
    }

    /// Why `burn` fails, if it does: checks in the order they are made.
    pub open spec fn burn_error(&self, e: &Env, from: Address, amount: i128) -> Option<TokenError> {
        if !self.is_initialized() {
            Some(TokenError::UninitializedLedger)
        } else if !e.is_authorized(from) {
            Some(TokenError::Unauthorized)
        } else if amount < 0 {
            Some(TokenError::NegativeAmount)
        } else if self.is_frozen(from) {
            Some(TokenError::AccountFrozen)
        } else if self.balance_of(from) < amount {
            Some(TokenError::InsufficientBalance)
        } else {
            None
        }
    }

    /// Why `burn_from` fails, if it does: checks in the order they are made.
    pub open spec fn burn_from_error(&self, e: &Env, spender: Address, from: Address, amount: i128) -> Option<
        TokenError,
    > {
        if !self.is_initialized() {
            Some(TokenError::UninitializedLedger)
        } else if !e.is_authorized(spender) {
            Some(TokenError::Unauthorized)
        } else if amount < 0 {
            Some(TokenError::NegativeAmount)
        } else if self.is_frozen(from) {
            Some(TokenError::AccountFrozen)
        } else if self.allowance_of(from, spender, e.sequence).amount < amount {
            Some(TokenError::InsufficientAllowance)
        } else if self.balance_of(from) < amount {
            Some(TokenError::InsufficientBalance)
        } else {
            None
        }
    }

    /// Whether `from` holds `amount` and `to` can receive it.
    fn check_balances(&self, from: Address, to: Address, amount: i128) -> (r: Result<(), TokenError>)
        requires
            amount >= 0,
        ensures
            r == (if self.balance_of(from) < amount {
                Err(TokenError::InsufficientBalance)
            } else if !transfer_fits(self.balances@, from, to, amount) {
                Err(TokenError::Overflow)
            } else {
                Ok(())
            }),
    {
        if peek_balance(self, from) < amount {
            return Err(TokenError::InsufficientBalance);
        }
        if from != to && peek_balance(self, to) > i128::MAX - amount {
            return Err(TokenError::Overflow);
        }
        Ok(())
    }

    /// Debits `amount` from `from`, then credits it to `to`.
    fn move_balance(&mut self, e: &Env, from: Address, to: Address, amount: i128)
        requires
            old(self).wf(),
            0 <= amount <= old(self).balance_of(from),
            transfer_fits(old(self).balances@, from, to, amount),
        ensures
            final(self).wf(),
            final(self).same_instance(old(self)),
            final(self).balances@ == transferred(old(self).balances@, from, to, amount, e.sequence),
            forall|a: Address| #[trigger]
                final(self).balance_of(a) == old(self).balance_of(a) - (if a == from {
                    amount as int
                } else {
                    0
                }) + (if a == to {
                    amount as int
                } else {
                    0
                }),
            final(self).allowances@ == old(self).allowances@,
    {
        let ghost m0 = self.balances@;
        // Neither call can fail: the caller checked both balances.
        let _ = spend_balance(self, e, from, amount);
        let ghost m1 = self.balances@;
        proof {
            lemma_balance_written(m0, from, (balance_in(m0, from) - amount) as i128, e.sequence);
        }
        let _ = receive_balance(self, e, to, amount);
        proof {
            lemma_balance_written(m1, to, (balance_in(m1, to) + amount) as i128, e.sequence);
        }
    }

    /// A ledger that is not initialized yet and holds nothing.
    pub fn new() -> (r: Token)
        ensures
            r.wf(),
            !r.is_initialized(),
            r.metadata is None,
            r.frozen@ == Set::<u64>::empty(),
            r.instance_live_until == 0,
            r.balances@ == Map::<u64, BalanceEntry>::empty(),
            r.allowances@ == Map::<u128, AllowanceEntry>::empty(),
    {
        Token {
            admin: None,
            metadata: None,
            frozen: HashSet::new(),
            instance_live_until: 0,
            balances: HashMap::new(),
            allowances: HashMap::new(),
        }
    }

    /// Renews the instance footprint at the current ledger.
    fn extend_instance_ttl(&mut self, e: &Env)
        ensures
            final(self).renewed_from(old(self), e.sequence),
            final(self).balances@ == old(self).balances@,
            final(self).allowances@ == old(self).allowances@,
    {
        self.instance_live_until = extend_ttl(
            self.instance_live_until,
            e.sequence,
            INSTANCE_LIFETIME_THRESHOLD,
            INSTANCE_BUMP_AMOUNT,
        );
    }

    /// Stores `admin` and the metadata. Fails with `AlreadyInitialized` when an
    /// administrator is already stored, else with `InvalidDecimalRange` when
    /// `decimal` exceeds 255; a failure changes nothing.
    pub fn initialize(&mut self, admin: Address, decimal: u32, name: String, symbol: String) -> (r:
        Result<(), TokenError>)
        requires
            old(self).wf(),
        ensures
            final(self).wf(),
            old(self).is_initialized() ==> r == Err::<(), TokenError>(
                TokenError::AlreadyInitialized,
            ) && *final(self) == *old(self),
            !old(self).is_initialized() && decimal > 255 ==> r == Err::<(), TokenError>(
                TokenError::InvalidDecimalRange,
            ) && *final(self) == *old(self),
            !old(self).is_initialized() && decimal <= 255 ==> {
                &&& r == Ok::<(), TokenError>(())
                &&& final(self).admin == Some(admin)
                &&& final(self).metadata == Some(TokenMetadata { decimal, name, symbol })
                &&& final(self).frozen@ == old(self).frozen@
                &&& final(self).instance_live_until == old(self).instance_live_until
                &&& final(self).balances@ == old(self).balances@
                &&& final(self).allowances@ == old(self).allowances@
            },
    {
        if has_administrator(self) {
            return Err(TokenError::AlreadyInitialized);
        }
        if decimal > 255 {
            return Err(TokenError::InvalidDecimalRange);
        }
        write_administrator(self, admin);
        write_metadata(self, TokenMetadata { decimal, name, symbol });
        Ok(())
    }
    /// Credits `amount` to `to`, on the administrator's authority. Frozen
    /// accounts can receive minted tokens.
    pub fn mint(&mut self, e: &Env, to: Address, amount: i128) -> (r: Result<Event, TokenError>)
        requires
            old(self).wf(),
        ensures
            final(self).wf(),
            match old(self).mint_error(e, to, amount) {
                Some(err) => r == Err::<Event, TokenError>(err) && *final(self) == *old(self),
                None => {
                    &&& r == Ok::<Event, TokenError>(
                        Event::Mint { admin: old(self).admin->Some_0, to, amount },
                    )
                    &&& final(self).renewed_from(old(self), e.sequence)
                    &&& final(self).balances@ == balance_written(
                        old(self).balances@,
                        to,
                        (old(self).balance_of(to) + amount) as i128,
                        e.sequence,
                    )
                    &&& final(self).allowances@ == old(self).allowances@
                },
            },
    {
        if let Err(err) = check_nonnegative_amount(amount) {
            return Err(err);
        }
        if !has_administrator(self) {
            return Err(TokenError::UninitializedLedger);
        }
        let admin = read_administrator(self);
        if let Err(err) = e.require_auth(admin) {
            return Err(err);
        }
        if peek_balance(self, to) > i128::MAX - amount {
            return Err(TokenError::Overflow);
        }
        self.extend_instance_ttl(e);
        if let Err(err) = receive_balance(self, e, to, amount) {
            return Err(err);
        }
        Ok(Event::Mint { admin, to, amount })
    }

    /// Replaces the administrator, on the current administrator's authority.
    pub fn set_admin(&mut self, e: &Env, new_admin: Address) -> (r: Result<Event, TokenError>)
        requires
            old(self).wf(),
        ensures
            final(self).wf(),
            match old(self).admin_error(e) {
                Some(err) => r == Err::<Event, TokenError>(err) && *final(self) == *old(self),
                None => {
                    &&& r == Ok::<Event, TokenError>(
                        Event::SetAdmin { admin: old(self).admin->Some_0, new_admin },
                    )
                    &&& final(self).admin == Some(new_admin)
                    &&& final(self).metadata == old(self).metadata
                    &&& final(self).frozen@ == old(self).frozen@
                    &&& final(self).instance_live_until == old(self).instance_renewed(e.sequence)
                    &&& final(self).balances@ == old(self).balances@
                    &&& final(self).allowances@ == old(self).allowances@
                },
            },
    {
        if !has_administrator(self) {
            return Err(TokenError::UninitializedLedger);
        }
        let admin = read_administrator(self);
        if let Err(err) = e.require_auth(admin) {
            return Err(err);
        }
        self.extend_instance_ttl(e);
        write_administrator(self, new_admin);
        Ok(Event::SetAdmin { admin, new_admin })
    }

    /// Freezes `account`, on the administrator's authority.
    pub fn freeze_account(&mut self, e: &Env, account: Address) -> (r: Result<Event, TokenError>)
        requires
            old(self).wf(),
        ensures
            final(self).wf(),
            match old(self).admin_error(e) {
                Some(err) => r == Err::<Event, TokenError>(err) && *final(self) == *old(self),
                None => {
                    &&& r == Ok::<Event, TokenError>(
                        Event::FreezeAccount { admin: old(self).admin->Some_0, account },
                    )
                    &&& final(self).admin == old(self).admin
                    &&& final(self).metadata == old(self).metadata
                    &&& final(self).frozen@ == old(self).frozen@.insert(account.id)
                    &&& final(self).instance_live_until == old(self).instance_renewed(e.sequence)
                    &&& final(self).balances@ == old(self).balances@
                    &&& final(self).allowances@ == old(self).allowances@
                },
            },
    {
        if !has_administrator(self) {
            return Err(TokenError::UninitializedLedger);
        }
        let admin = read_administrator(self);
        if let Err(err) = e.require_auth(admin) {
            return Err(err);
        }
        self.extend_instance_ttl(e);
        self.frozen.insert(account.id);
        Ok(Event::FreezeAccount { admin, account })
    }

    /// Unfreezes `account`, on the administrator's authority.
    pub fn unfreeze_account(&mut self, e: &Env, account: Address) -> (r: Result<Event, TokenError>)
        requires
            old(self).wf(),
        ensures
            final(self).wf(),
            match old(self).admin_error(e) {
                Some(err) => r == Err::<Event, TokenError>(err) && *final(self) == *old(self),
                None => {
                    &&& r == Ok::<Event, TokenError>(
                        Event::UnfreezeAccount { admin: old(self).admin->Some_0, account },
                    )
                    &&& final(self).admin == old(self).admin
                    &&& final(self).metadata == old(self).metadata
                    &&& final(self).frozen@ == old(self).frozen@.remove(account.id)
                    &&& final(self).instance_live_until == old(self).instance_renewed(e.sequence)
                    &&& final(self).balances@ == old(self).balances@
                    &&& final(self).allowances@ == old(self).allowances@
                },
            },
    {
        if !has_administrator(self) {
            return Err(TokenError::UninitializedLedger);
        }
        let admin = read_administrator(self);
        if let Err(err) = e.require_auth(admin) {
            return Err(err);
        }
        self.extend_instance_ttl(e);
        self.frozen.remove(&account.id);
        Ok(Event::UnfreezeAccount { admin, account })
    }
    /// The allowance that `from` granted to `spender`, as of the current ledger.
    /// Only retention changes.
    pub fn allowance(&mut self, e: &Env, from: Address, spender: Address) -> (r: i128)
        requires
            old(self).wf(),
        ensures
            final(self).wf(),
            r == old(self).allowance_of(from, spender, e.sequence).amount,
            final(self).renewed_from(old(self), e.sequence),
            final(self).balances@ == old(self).balances@,
            final(self).allowances@ == old(self).allowances@,
    {
        self.extend_instance_ttl(e);
        read_allowance(self, e, from, spender).amount
    }

    /// Sets the allowance of `spender` over `from`'s balance to `amount` until
    /// ledger `expiration_ledger`, replacing any earlier one, on `from`'s
    /// authority.
    pub fn approve(
        &mut self,
        e: &Env,
        from: Address,
        spender: Address,
        amount: i128,
        expiration_ledger: u32,
    ) -> (r: Result<Event, TokenError>)
        requires
            old(self).wf(),
        ensures
            final(self).wf(),
            match old(self).approve_error(e, from, amount, expiration_ledger) {
                Some(err) => r == Err::<Event, TokenError>(err) && *final(self) == *old(self),
                None => {
                    &&& r == Ok::<Event, TokenError>(
                        Event::Approve { from, spender, amount, expiration_ledger },
                    )
                    &&& final(self).renewed_from(old(self), e.sequence)
                    &&& final(self).allowances@ == allowance_written(
                        old(self).allowances@,
                        from,
                        spender,
                        amount,
                        expiration_ledger,
                        e.sequence,
                    )
                    &&& final(self).balances@ == old(self).balances@
                },
            },
    {
        if !has_administrator(self) {
            return Err(TokenError::UninitializedLedger);
        }
        if let Err(err) = e.require_auth(from) {
            return Err(err);
        }
        if let Err(err) = check_nonnegative_amount(amount) {
            return Err(err);
        }
        if amount > 0 && expiration_ledger < e.sequence {
            return Err(TokenError::InvalidExpiration);
        }
        self.extend_instance_ttl(e);
        if let Err(err) = write_allowance(self, e, from, spender, amount, expiration_ledger) {
            return Err(err);
        }
        Ok(Event::Approve { from, spender, amount, expiration_ledger })
    }

    /// The balance of `id`. Only retention changes.
    pub fn balance(&mut self, e: &Env, id: Address) -> (r: i128)
        requires
            old(self).wf(),
        ensures
            final(self).wf(),
            r == old(self).balance_of(id),
            forall|a: Address| #[trigger] final(self).balance_of(a) == old(self).balance_of(a),
            final(self).renewed_from(old(self), e.sequence),
            final(self).balances@ == balance_renewed(old(self).balances@, id, e.sequence),
            final(self).allowances@ == old(self).allowances@,
    {
        self.extend_instance_ttl(e);
        let r = read_balance(self, e, id);
        proof {
            lemma_balance_renewed(old(self).balances@, id, e.sequence);
        }
        r
    }

    /// Moves `amount` from `from` to `to`, on `from`'s authority, unless `from`
    /// is frozen.
    pub fn transfer(&mut self, e: &Env, from: Address, to: Address, amount: i128) -> (r: Result<
        Event,
        TokenError,
    >)
        requires
            old(self).wf(),
        ensures
            final(self).wf(),
            match old(self).transfer_error(e, from, to, amount) {
                Some(err) => r == Err::<Event, TokenError>(err) && *final(self) == *old(self),
                None => {
                    &&& r == Ok::<Event, TokenError>(Event::Transfer { from, to, amount })
                    &&& final(self).renewed_from(old(self), e.sequence)
                    &&& final(self).balances@ == transferred(
                        old(self).balances@,
                        from,
                        to,
                        amount,
                        e.sequence,
                    )
                    &&& forall|a: Address| #[trigger]
                        final(self).balance_of(a) == old(self).balance_of(a) - (if a == from {
                            amount as int
                        } else {
                            0
                        }) + (if a == to {
                            amount as int
                        } else {
                            0
                        })
                    &&& final(self).allowances@ == old(self).allowances@
                },
            },
    {
        if !has_administrator(self) {
            return Err(TokenError::UninitializedLedger);
        }
        if let Err(err) = e.require_auth(from) {
            return Err(err);
        }
        if let Err(err) = check_nonnegative_amount(amount) {
            return Err(err);
        }
        if is_account_frozen(self, from) {
            return Err(TokenError::AccountFrozen);
        }
        if let Err(err) = self.check_balances(from, to, amount) {
            return Err(err);
        }
        self.extend_instance_ttl(e);
        self.move_balance(e, from, to, amount);
        Ok(Event::Transfer { from, to, amount })
    }
    /// Moves `amount` from `from` to `to` out of the allowance that `from`
    /// granted to `spender`, on `spender`'s authority, unless `from` is frozen.
    pub fn transfer_from(
        &mut self,
        e: &Env,
        spender: Address,
        from: Address,
        to: Address,
        amount: i128,
    ) -> (r: Result<Event, TokenError>)
        requires
            old(self).wf(),
        ensures
            final(self).wf(),
            match old(self).transfer_from_error(e, spender, from, to, amount) {
                Some(err) => r == Err::<Event, TokenError>(err) && *final(self) == *old(self),
                None => {
                    let current = old(self).allowance_of(from, spender, e.sequence);
                    &&& r == Ok::<Event, TokenError>(Event::Transfer { from, to, amount })
                    &&& final(self).renewed_from(old(self), e.sequence)
                    &&& final(self).allowances@ == allowance_written(
                        old(self).allowances@,
                        from,
                        spender,
                        (current.amount - amount) as i128,
                        current.expiration_ledger,
                        e.sequence,
                    )
                    &&& final(self).balances@ == transferred(
                        old(self).balances@,
                        from,
                        to,
                        amount,
                        e.sequence,
                    )
                    &&& forall|a: Address| #[trigger]
                        final(self).balance_of(a) == old(self).balance_of(a) - (if a == from {
                            amount as int
                        } else {
                            0
                        }) + (if a == to {
                            amount as int
                        } else {
                            0
                        })
                },
            },
    {
        if !has_administrator(self) {
            return Err(TokenError::UninitializedLedger);
        }
        if let Err(err) = e.require_auth(spender) {
            return Err(err);
        }
        if let Err(err) = check_nonnegative_amount(amount) {
            return Err(err);
        }
        if is_account_frozen(self, from) {
            return Err(TokenError::AccountFrozen);
        }
        if read_allowance(self, e, from, spender).amount < amount {
            return Err(TokenError::InsufficientAllowance);
        }
        if let Err(err) = self.check_balances(from, to, amount) {
            return Err(err);
        }
        self.extend_instance_ttl(e);
        // Cannot fail: the allowance was checked above.
        let _ = spend_allowance(self, e, from, spender, amount);
        self.move_balance(e, from, to, amount);
        Ok(Event::Transfer { from, to, amount })
    }

    /// Destroys `amount` of `from`'s balance, on `from`'s authority, unless
    /// `from` is frozen.
    pub fn burn(&mut self, e: &Env, from: Address, amount: i128) -> (r: Result<Event, TokenError>)
        requires
            old(self).wf(),
        ensures
            final(self).wf(),
            match old(self).burn_error(e, from, amount) {
                Some(err) => r == Err::<Event, TokenError>(err) && *final(self) == *old(self),
                None => {
                    &&& r == Ok::<Event, TokenError>(Event::Burn { from, amount })
                    &&& final(self).renewed_from(old(self), e.sequence)
                    &&& final(self).balances@ == balance_written(
                        old(self).balances@,
                        from,
                        (old(self).balance_of(from) - amount) as i128,
                        e.sequence,
                    )
                    &&& final(self).allowances@ == old(self).allowances@
                },
            },
    {
        if !has_administrator(self) {
            return Err(TokenError::UninitializedLedger);
        }
        if let Err(err) = e.require_auth(from) {
            return Err(err);
        }
        if let Err(err) = check_nonnegative_amount(amount) {
            return Err(err);
        }
        if is_account_frozen(self, from) {
            return Err(TokenError::AccountFrozen);
        }
        if peek_balance(self, from) < amount {
            return Err(TokenError::InsufficientBalance);
        }
        self.extend_instance_ttl(e);
        // Cannot fail: the balance was checked above.
        let _ = spend_balance(self, e, from, amount);
        Ok(Event::Burn { from, amount })
    }

    /// Destroys `amount` of `from`'s balance out of the allowance that `from`
    /// granted to `spender`, on `spender`'s authority, unless `from` is frozen.
    pub fn burn_from(&mut self, e: &Env, spender: Address, from: Address, amount: i128) -> (r: Result<
        Event,
        TokenError,
    >)
        requires
            old(self).wf(),
        ensures
            final(self).wf(),
            match old(self).burn_from_error(e, spender, from, amount) {
                Some(err) => r == Err::<Event, TokenError>(err) && *final(self) == *old(self),
                None => {
                    let current = old(self).allowance_of(from, spender, e.sequence);
                    &&& r == Ok::<Event, TokenError>(Event::Burn { from, amount })
                    &&& final(self).renewed_from(old(self), e.sequence)
                    &&& final(self).allowances@ == allowance_written(
                        old(self).allowances@,
                        from,
                        spender,
                        (current.amount - amount) as i128,
                        current.expiration_ledger,
                        e.sequence,
                    )
                    &&& final(self).balances@ == balance_written(
                        old(self).balances@,
                        from,
                        (old(self).balance_of(from) - amount) as i128,
                        e.sequence,
                    )
                },
            },
    {
        if !has_administrator(self) {
            return Err(TokenError::UninitializedLedger);
        }
        if let Err(err) = e.require_auth(spender) {
            return Err(err);
        }
        if let Err(err) = check_nonnegative_amount(amount) {
            return Err(err);
        }
        if is_account_frozen(self, from) {
            return Err(TokenError::AccountFrozen);
        }
        if read_allowance(self, e, from, spender).amount < amount {
            return Err(TokenError::InsufficientAllowance);
        }
        if peek_balance(self, from) < amount {
            return Err(TokenError::InsufficientBalance);
        }
        self.extend_instance_ttl(e);
        // Neither call can fail: the allowance and the balance were checked above.
        let _ = spend_allowance(self, e, from, spender, amount);
        let _ = spend_balance(self, e, from, amount);
        Ok(Event::Burn { from, amount })
    }

    /// The last ledger to which the storage entry under `key` is retained, or
    /// `None` when no such entry is stored. The administrator and the freeze
    /// flags share the retention of the instance footprint.
    pub fn live_until(&self, key: DataKey) -> (r: Option<u64>)
        ensures
            r == match key {
                DataKey::Balance(a) => if self.balances@.contains_key(a.id) {
                    Some(self.balances@[a.id].live_until)
                } else {
                    None
                },
                DataKey::Allowance(k) => if self.allowances@.contains_key(
                    allowance_key(k.from, k.spender),
                ) {
                    Some(self.allowances@[allowance_key(k.from, k.spender)].live_until)
                } else {
                    None
                },
                DataKey::Admin => if self.admin is Some {
                    Some(self.instance_live_until)
                } else {
                    None
                },
                DataKey::Frozen(a) => if self.frozen@.contains(a.id) {
                    Some(self.instance_live_until)
                } else {
                    None
                },
            },
    {
        match key {
            DataKey::Balance(a) => match self.balances.get(&a.id) {
                Some(entry) => Some(entry.live_until),
                None => None,
            },
            DataKey::Allowance(k) => match self.allowances.get(
                &allowance_storage_key(k.from, k.spender),
            ) {
                Some(entry) => Some(entry.live_until),
                None => None,
            },
            DataKey::Admin => if self.admin.is_some() {
                Some(self.instance_live_until)
            } else {
                None
            },
            DataKey::Frozen(a) => if self.frozen.contains(&a.id) {
                Some(self.instance_live_until)
            } else {
                None
            },
        }
    }

    /// Decimal places of the token; `UninitializedLedger` before `initialize`.
    pub fn decimals(&self) -> (r: Result<u32, TokenError>)
        ensures
            match self.metadata {
                Some(m) => r == Ok::<u32, TokenError>(m.decimal),
                None => r == Err::<u32, TokenError>(TokenError::UninitializedLedger),
            },
    {
        if self.metadata.is_none() {
            return Err(TokenError::UninitializedLedger);
        }
        Ok(read_decimal(self))
    }

    /// Name of the token; `UninitializedLedger` before `initialize`.
    pub fn name(&self) -> (r: Result<String, TokenError>)
        ensures
            match self.metadata {
                Some(m) => r is Ok && r->Ok_0@ == m.name@,
                None => r == Err::<String, TokenError>(TokenError::UninitializedLedger),
            },
    {
        if self.metadata.is_none() {
            return Err(TokenError::UninitializedLedger);
        }
        Ok(read_name(self))
    }

    /// Symbol of the token; `UninitializedLedger` before `initialize`.
    pub fn symbol(&self) -> (r: Result<String, TokenError>)
        ensures
            match self.metadata {
                Some(m) => r is Ok && r->Ok_0@ == m.symbol@,
                None => r == Err::<String, TokenError>(TokenError::UninitializedLedger),
            },
    {
        if self.metadata.is_none() {
            return Err(TokenError::UninitializedLedger);
        }
        Ok(read_symbol(self))
    }
}

} // verus!
