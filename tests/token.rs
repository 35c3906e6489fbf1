use token_ledger::contract::Token;
use token_ledger::env::Env;
use token_ledger::storage_types::{Address, Event, TokenError};

fn addr(id: u64) -> Address {
    Address { id }
}

/// A context at ledger `sequence` in which `who` authorized the call.
fn signed_by(sequence: u32, who: Address) -> Env {
    let mut e = Env::new(sequence);
    e.authorize(who);
    e
}

/// A context at ledger `sequence` in which nobody authorized anything.
fn anyone(sequence: u32) -> Env {
    Env::new(sequence)
}

fn create_token(admin: Address) -> Token {
    let mut token = Token::new();
    token
        .initialize(admin, 7, "name".to_string(), "symbol".to_string())
        .unwrap();
    token
}

#[test]
fn test() {
    let admin1 = addr(1);
    let admin2 = addr(2);
    let user1 = addr(3);
    let user2 = addr(4);
    let user3 = addr(5);
    let mut token = create_token(admin1);

    assert_eq!(
        token.mint(&signed_by(0, admin1), user1, 1000),
        Ok(Event::Mint { admin: admin1, to: user1, amount: 1000 })
    );
    assert_eq!(token.balance(&anyone(0), user1), 1000);

    assert_eq!(
        token.approve(&signed_by(0, user2), user2, user3, 500, 200),
        Ok(Event::Approve { from: user2, spender: user3, amount: 500, expiration_ledger: 200 })
    );
    assert_eq!(token.allowance(&anyone(0), user2, user3), 500);

    assert_eq!(
        token.transfer(&signed_by(0, user1), user1, user2, 600),
        Ok(Event::Transfer { from: user1, to: user2, amount: 600 })
    );
    assert_eq!(token.balance(&anyone(0), user1), 400);
    assert_eq!(token.balance(&anyone(0), user2), 600);

    assert_eq!(
        token.transfer_from(&signed_by(0, user3), user3, user2, user1, 400),
        Ok(Event::Transfer { from: user2, to: user1, amount: 400 })
    );
    assert_eq!(token.balance(&anyone(0), user1), 800);
    assert_eq!(token.balance(&anyone(0), user2), 200);

    token.transfer(&signed_by(0, user1), user1, user3, 300).unwrap();
    assert_eq!(token.balance(&anyone(0), user1), 500);
    assert_eq!(token.balance(&anyone(0), user3), 300);

    assert_eq!(
        token.set_admin(&signed_by(0, admin1), admin2),
        Ok(Event::SetAdmin { admin: admin1, new_admin: admin2 })
    );

    token.approve(&signed_by(0, user2), user2, user3, 500, 200).unwrap();
    assert_eq!(token.allowance(&anyone(0), user2, user3), 500);
    assert_eq!(
        token.approve(&signed_by(0, user2), user2, user3, 0, 200),
        Ok(Event::Approve { from: user2, spender: user3, amount: 0, expiration_ledger: 200 })
    );
    assert_eq!(token.allowance(&anyone(0), user2, user3), 0);
}

#[test]
fn test_burn() {
    let admin = addr(1);
    let user1 = addr(2);
    let user2 = addr(3);
    let mut token = create_token(admin);

    token.mint(&signed_by(0, admin), user1, 1000).unwrap();
    assert_eq!(token.balance(&anyone(0), user1), 1000);

    token.approve(&signed_by(0, user1), user1, user2, 500, 200).unwrap();
    assert_eq!(token.allowance(&anyone(0), user1, user2), 500);

    assert_eq!(
        token.burn_from(&signed_by(0, user2), user2, user1, 500),
        Ok(Event::Burn { from: user1, amount: 500 })
    );
    assert_eq!(token.allowance(&anyone(0), user1, user2), 0);
    assert_eq!(token.balance(&anyone(0), user1), 500);
    assert_eq!(token.balance(&anyone(0), user2), 0);

    assert_eq!(
        token.burn(&signed_by(0, user1), user1, 500),
        Ok(Event::Burn { from: user1, amount: 500 })
    );
    assert_eq!(token.balance(&anyone(0), user1), 0);
    assert_eq!(token.balance(&anyone(0), user2), 0);
}

#[test]
fn transfer_insufficient_balance() {
    let admin = addr(1);
    let user1 = addr(2);
    let user2 = addr(3);
    let mut token = create_token(admin);

    token.mint(&signed_by(0, admin), user1, 1000).unwrap();
    assert_eq!(token.balance(&anyone(0), user1), 1000);

    assert_eq!(
        token.transfer(&signed_by(0, user1), user1, user2, 1001),
        Err(TokenError::InsufficientBalance)
    );
    assert_eq!(token.balance(&anyone(0), user1), 1000);
    assert_eq!(token.balance(&anyone(0), user2), 0);
}

#[test]
fn transfer_from_insufficient_allowance() {
    let admin = addr(1);
    let user1 = addr(2);
    let user2 = addr(3);
    let user3 = addr(4);
    let mut token = create_token(admin);

    token.mint(&signed_by(0, admin), user1, 1000).unwrap();
    assert_eq!(token.balance(&anyone(0), user1), 1000);

    token.approve(&signed_by(0, user1), user1, user3, 100, 200).unwrap();
    assert_eq!(token.allowance(&anyone(0), user1, user3), 100);

    assert_eq!(
        token.transfer_from(&signed_by(0, user3), user3, user1, user2, 101),
        Err(TokenError::InsufficientAllowance)
    );
    assert_eq!(token.allowance(&anyone(0), user1, user3), 100);
    assert_eq!(token.balance(&anyone(0), user1), 1000);
}

#[test]
fn initialize_already_initialized() {
    let admin = addr(1);
    let mut token = create_token(admin);
    assert_eq!(
        token.initialize(admin, 10, "name".to_string(), "symbol".to_string()),
        Err(TokenError::AlreadyInitialized)
    );
    assert_eq!(token.decimals(), Ok(7));
}

#[test]
fn decimal_is_over_max() {
    let admin = addr(1);
    let mut token = Token::new();
    assert_eq!(
        token.initialize(admin, u32::from(u8::MAX) + 1, "name".to_string(), "symbol".to_string()),
        Err(TokenError::InvalidDecimalRange)
    );
    assert_eq!(token.decimals(), Err(TokenError::UninitializedLedger));
}
