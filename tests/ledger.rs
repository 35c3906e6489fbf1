use token_ledger::contract::{check_nonnegative_amount, Token};
use token_ledger::env::Env;
use token_ledger::storage_types::{
    extend_ttl, Address, AllowanceDataKey, DataKey, Event, TokenError,
    BALANCE_BUMP_AMOUNT, INSTANCE_BUMP_AMOUNT,
};

fn addr(id: u64) -> Address {
    Address { id }
}

fn signed_by(sequence: u32, who: Address) -> Env {
    let mut e = Env::new(sequence);
    e.authorize(who);
    e
}

fn initialized(admin: Address) -> Token {
    let mut token = Token::new();
    token
        .initialize(admin, 7, "name".to_string(), "symbol".to_string())
        .unwrap();
    token
}

#[test]
fn expired_allowance_reads_zero_without_rewrite() {
    let admin = addr(1);
    let owner = addr(2);
    let spender = addr(3);
    let mut token = initialized(admin);
    token.mint(&signed_by(10, admin), owner, 1000).unwrap();
    token.approve(&signed_by(10, owner), owner, spender, 500, 100).unwrap();
    let key = DataKey::Allowance(AllowanceDataKey { from: owner, spender });
    assert_eq!(token.live_until(key), Some(100));

    assert_eq!(token.allowance(&Env::new(100), owner, spender), 500);
    assert_eq!(token.allowance(&Env::new(101), owner, spender), 0);
    // The stored record is still there; only the read treats it as lapsed.
    assert_eq!(token.live_until(key), Some(100));
    assert_eq!(token.allowance(&Env::new(100), owner, spender), 500);
    assert_eq!(
        token.transfer_from(&signed_by(101, spender), spender, owner, spender, 1),
        Err(TokenError::InsufficientAllowance)
    );
}

#[test]
fn spending_an_allowance_keeps_its_expiration() {
    let admin = addr(1);
    let owner = addr(2);
    let spender = addr(3);
    let mut token = initialized(admin);
    token.mint(&signed_by(0, admin), owner, 1000).unwrap();
    token.approve(&signed_by(0, owner), owner, spender, 500, 200).unwrap();
    token.transfer_from(&signed_by(0, spender), spender, owner, spender, 400).unwrap();
    assert_eq!(token.allowance(&Env::new(200), owner, spender), 100);
    assert_eq!(token.allowance(&Env::new(201), owner, spender), 0);
}

#[test]
fn reads_renew_retention_and_keep_values() {
    let admin = addr(1);
    let user = addr(2);
    let mut token = initialized(admin);
    token.mint(&signed_by(0, admin), user, 70).unwrap();
    assert_eq!(token.live_until(DataKey::Balance(user)), Some(BALANCE_BUMP_AMOUNT as u64));
    assert_eq!(token.live_until(DataKey::Admin), Some(INSTANCE_BUMP_AMOUNT as u64));

    assert_eq!(token.balance(&Env::new(100000), user), 70);
    assert_eq!(token.live_until(DataKey::Balance(user)), Some(618400));
    assert_eq!(token.balance(&Env::new(100000), user), 70);
    assert_eq!(token.live_until(DataKey::Balance(user)), Some(618400));
    assert_eq!(token.live_until(DataKey::Admin), Some(220960));

    assert_eq!(token.allowance(&Env::new(100000), user, admin), 0);
    assert_eq!(token.balance(&Env::new(100000), admin), 0);
    assert_eq!(token.live_until(DataKey::Balance(admin)), None);
}

#[test]
fn renewal_only_below_threshold() {
    assert_eq!(extend_ttl(500, 100, 300, 1000), 500);
    assert_eq!(extend_ttl(399, 100, 300, 1000), 1100);
    assert_eq!(extend_ttl(0, 100, 300, 1000), 1100);
}

#[test]
fn freeze_blocks_transfers_but_not_mint() {
    let admin = addr(1);
    let a = addr(2);
    let b = addr(3);
    let mut token = initialized(admin);
    token.mint(&signed_by(0, admin), a, 10).unwrap();
    token.approve(&signed_by(0, a), a, b, 5, 100).unwrap();
    assert_eq!(
        token.freeze_account(&signed_by(0, admin), a),
        Ok(Event::FreezeAccount { admin, account: a })
    );
    assert_eq!(token.live_until(DataKey::Frozen(a)), Some(INSTANCE_BUMP_AMOUNT as u64));

    assert_eq!(
        token.mint(&signed_by(0, admin), a, 5),
        Ok(Event::Mint { admin, to: a, amount: 5 })
    );
    assert_eq!(token.balance(&Env::new(0), a), 15);
    assert_eq!(token.transfer(&signed_by(0, a), a, b, 1), Err(TokenError::AccountFrozen));
    assert_eq!(token.burn(&signed_by(0, a), a, 1), Err(TokenError::AccountFrozen));
    assert_eq!(
        token.transfer_from(&signed_by(0, b), b, a, b, 1),
        Err(TokenError::AccountFrozen)
    );
    assert_eq!(token.burn_from(&signed_by(0, b), b, a, 1), Err(TokenError::AccountFrozen));
    // A frozen account can still receive.
    token.mint(&signed_by(0, admin), b, 3).unwrap();
    token.transfer(&signed_by(0, b), b, a, 3).unwrap();
    assert_eq!(token.balance(&Env::new(0), a), 18);

    assert_eq!(
        token.unfreeze_account(&signed_by(0, admin), a),
        Ok(Event::UnfreezeAccount { admin, account: a })
    );
    assert_eq!(token.live_until(DataKey::Frozen(a)), None);
    token.transfer(&signed_by(0, a), a, b, 1).unwrap();
    assert_eq!(token.balance(&Env::new(0), a), 17);
}

#[test]
fn negative_amounts_are_rejected() {
    let admin = addr(1);
    let a = addr(2);
    let b = addr(3);
    let mut token = initialized(admin);
    token.mint(&signed_by(0, admin), a, 10).unwrap();
    assert_eq!(check_nonnegative_amount(-1), Err(TokenError::NegativeAmount));
    assert_eq!(check_nonnegative_amount(0), Ok(()));
    assert_eq!(token.mint(&signed_by(0, admin), a, -1), Err(TokenError::NegativeAmount));
    assert_eq!(token.transfer(&signed_by(0, a), a, b, -1), Err(TokenError::NegativeAmount));
    assert_eq!(token.approve(&signed_by(0, a), a, b, -1, 10), Err(TokenError::NegativeAmount));
    assert_eq!(token.burn(&signed_by(0, a), a, -1), Err(TokenError::NegativeAmount));
    assert_eq!(token.balance(&Env::new(0), a), 10);
    assert_eq!(token.balance(&Env::new(0), b), 0);
}

#[test]
fn calls_need_the_right_authorization() {
    let admin = addr(1);
    let new_admin = addr(2);
    let a = addr(3);
    let b = addr(4);
    let mut token = initialized(admin);
    assert_eq!(token.mint(&signed_by(0, a), a, 10), Err(TokenError::Unauthorized));
    assert_eq!(token.mint(&Env::new(0), a, 10), Err(TokenError::Unauthorized));
    token.mint(&signed_by(0, admin), a, 10).unwrap();
    assert_eq!(token.transfer(&signed_by(0, b), a, b, 1), Err(TokenError::Unauthorized));
    assert_eq!(token.approve(&signed_by(0, b), a, b, 1, 10), Err(TokenError::Unauthorized));
    assert_eq!(token.freeze_account(&signed_by(0, a), a), Err(TokenError::Unauthorized));
    assert_eq!(token.set_admin(&signed_by(0, a), a), Err(TokenError::Unauthorized));

    token.set_admin(&signed_by(0, admin), new_admin).unwrap();
    assert_eq!(token.mint(&signed_by(0, admin), a, 1), Err(TokenError::Unauthorized));
    token.mint(&signed_by(0, new_admin), a, 1).unwrap();
    assert_eq!(token.balance(&Env::new(0), a), 11);
}

#[test]
fn operations_need_an_initialized_ledger() {
    let a = addr(1);
    let b = addr(2);
    let mut token = Token::new();
    assert_eq!(token.mint(&signed_by(0, a), a, 1), Err(TokenError::UninitializedLedger));
    assert_eq!(token.set_admin(&signed_by(0, a), b), Err(TokenError::UninitializedLedger));
    assert_eq!(token.freeze_account(&signed_by(0, a), b), Err(TokenError::UninitializedLedger));
    assert_eq!(token.transfer(&signed_by(0, a), a, b, 0), Err(TokenError::UninitializedLedger));
    assert_eq!(
        token.approve(&signed_by(0, a), a, b, 0, 0),
        Err(TokenError::UninitializedLedger)
    );
    assert_eq!(token.name(), Err(TokenError::UninitializedLedger));
    assert_eq!(token.symbol(), Err(TokenError::UninitializedLedger));
    assert_eq!(token.live_until(DataKey::Admin), None);
}

#[test]
fn expired_grants_are_refused() {
    let admin = addr(1);
    let a = addr(2);
    let b = addr(3);
    let mut token = initialized(admin);
    assert_eq!(
        token.approve(&signed_by(50, a), a, b, 10, 40),
        Err(TokenError::InvalidExpiration)
    );
    assert_eq!(token.allowance(&Env::new(40), a, b), 0);
    token.approve(&signed_by(50, a), a, b, 0, 40).unwrap();
    token.approve(&signed_by(50, a), a, b, 10, 50).unwrap();
    assert_eq!(token.allowance(&Env::new(50), a, b), 10);
}

#[test]
fn balances_stay_in_range() {
    let admin = addr(1);
    let a = addr(2);
    let b = addr(3);
    let mut token = initialized(admin);
    token.mint(&signed_by(0, admin), a, i128::MAX).unwrap();
    assert_eq!(token.mint(&signed_by(0, admin), a, 1), Err(TokenError::Overflow));
    token.mint(&signed_by(0, admin), b, 1).unwrap();
    assert_eq!(token.transfer(&signed_by(0, b), b, a, 1), Err(TokenError::Overflow));
    token.transfer(&signed_by(0, a), a, a, i128::MAX).unwrap();
    assert_eq!(token.balance(&Env::new(0), a), i128::MAX);
    assert_eq!(token.balance(&Env::new(0), b), 1);
}

#[test]
fn burn_needs_balance_and_allowance() {
    let admin = addr(1);
    let a = addr(2);
    let b = addr(3);
    let mut token = initialized(admin);
    token.mint(&signed_by(0, admin), a, 10).unwrap();
    assert_eq!(token.burn(&signed_by(0, a), a, 11), Err(TokenError::InsufficientBalance));
    token.approve(&signed_by(0, a), a, b, 20, 10).unwrap();
    assert_eq!(token.burn_from(&signed_by(0, b), b, a, 11), Err(TokenError::InsufficientBalance));
    assert_eq!(token.burn_from(&signed_by(0, b), b, a, 21), Err(TokenError::InsufficientAllowance));
    token.burn_from(&signed_by(0, b), b, a, 4).unwrap();
    assert_eq!(token.allowance(&Env::new(0), a, b), 16);
    assert_eq!(token.balance(&Env::new(0), a), 6);
}

#[test]
fn metadata_is_kept() {
    let admin = addr(1);
    let mut token = Token::new();
    token
        .initialize(admin, 255, "Lira".to_string(), "TRY".to_string())
        .unwrap();
    assert_eq!(token.decimals(), Ok(255));
    assert_eq!(token.name(), Ok("Lira".to_string()));
    assert_eq!(token.symbol(), Ok("TRY".to_string()));
}
