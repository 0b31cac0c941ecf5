use ev_charging::errors::CustomError;
use ev_charging::escrow::{release_escrow, Payout, ReleaseEscrow};
use ev_charging::identity::Identity;
use ev_charging::records::{Escrow, User};

fn id(byte: u8) -> Identity {
    Identity::new([byte; 32])
}

const OWNER: u8 = 1;
const CONSUMER: u8 = 2;
const ACCOUNT: u8 = 20;
const STRANGER: u8 = 3;

fn held(amount: u64) -> Escrow {
    Escrow { user: id(ACCOUNT), owner: id(OWNER), amount, is_released: false }
}

fn account() -> User {
    User {
        authority: id(CONSUMER),
        charge_count: 1,
        token_balance: 0,
        total_power_consumed: 0,
        total_price_paid: 0,
        total_sessions: 0,
    }
}

fn request(authority: u8, recipient: u8, escrow_balance: u64, rent_exemption: u64) -> ReleaseEscrow {
    ReleaseEscrow {
        user: id(ACCOUNT),
        authority: id(authority),
        recipient: id(recipient),
        escrow_balance,
        rent_exemption,
    }
}

#[test]
fn owner_releases_to_themselves() {
    let mut escrow = held(1_000_000);
    let paid = release_escrow(&mut escrow, &account(), &request(OWNER, STRANGER, 1_000_890, 890), 1_000_000);
    assert_eq!(paid, Ok(Payout { payee: id(OWNER), amount: 1_000_000 }));
    assert_eq!(escrow, Escrow { user: id(ACCOUNT), owner: id(OWNER), amount: 1_000_000, is_released: true });
}

#[test]
fn consumer_releases_to_the_owner() {
    let mut escrow = held(500);
    let paid = release_escrow(&mut escrow, &account(), &request(CONSUMER, OWNER, 2_000, 890), 500);
    assert_eq!(paid, Ok(Payout { payee: id(OWNER), amount: 500 }));
    assert!(escrow.is_released);
}

#[test]
fn second_release_fails_as_already_released() {
    let mut escrow = held(1_000_000);
    let ctx = request(OWNER, OWNER, 1_000_890, 890);
    assert!(release_escrow(&mut escrow, &account(), &ctx, 1_000_000).is_ok());
    let again = release_escrow(&mut escrow, &account(), &ctx, 1_000_000);
    assert_eq!(again, Err(CustomError::AlreadyReleased));
    assert!(escrow.is_released);
    let smaller = release_escrow(&mut escrow, &account(), &request(CONSUMER, OWNER, 10, 0), 0);
    assert_eq!(smaller, Err(CustomError::AlreadyReleased));
}

#[test]
fn released_is_reported_before_missing_funds_and_authority() {
    let mut escrow = held(10);
    escrow.is_released = true;
    let paid = release_escrow(&mut escrow, &account(), &request(STRANGER, STRANGER, 0, 890), 10);
    assert_eq!(paid, Err(CustomError::AlreadyReleased));
}

#[test]
fn balance_below_amount_plus_reserve_is_insufficient() {
    let mut escrow = held(1_000);
    let paid = release_escrow(&mut escrow, &account(), &request(OWNER, OWNER, 1_889, 890), 1_000);
    assert_eq!(paid, Err(CustomError::InsufficientFunds));
    assert_eq!(escrow, held(1_000));
}

#[test]
fn balance_of_exactly_amount_plus_reserve_suffices() {
    let mut escrow = held(1_000);
    let paid = release_escrow(&mut escrow, &account(), &request(OWNER, OWNER, 1_890, 890), 1_000);
    assert_eq!(paid, Ok(Payout { payee: id(OWNER), amount: 1_000 }));
}

#[test]
fn amount_plus_reserve_beyond_64_bits_is_insufficient() {
    let mut escrow = held(1_000);
    let paid = release_escrow(&mut escrow, &account(), &request(OWNER, OWNER, u64::MAX, 1), u64::MAX);
    assert_eq!(paid, Err(CustomError::InsufficientFunds));
    assert!(!escrow.is_released);
}

#[test]
fn missing_funds_are_reported_before_missing_authority() {
    let mut escrow = held(1_000);
    let paid = release_escrow(&mut escrow, &account(), &request(STRANGER, STRANGER, 0, 0), 1);
    assert_eq!(paid, Err(CustomError::InsufficientFunds));
}

#[test]
fn stranger_may_not_release() {
    let mut escrow = held(1_000);
    let paid = release_escrow(&mut escrow, &account(), &request(STRANGER, OWNER, 5_000, 890), 1_000);
    assert_eq!(paid, Err(CustomError::Unauthorized));
    assert_eq!(escrow, held(1_000));
}

#[test]
fn consumer_may_not_name_another_payee() {
    let mut escrow = held(1_000);
    let paid = release_escrow(&mut escrow, &account(), &request(CONSUMER, CONSUMER, 5_000, 890), 1_000);
    assert_eq!(paid, Err(CustomError::Unauthorized));
    assert!(!escrow.is_released);
}

#[test]
fn account_that_did_not_fund_the_escrow_is_refused() {
    let mut escrow = held(1_000);
    let mut ctx = request(OWNER, OWNER, 5_000, 890);
    ctx.user = id(21);
    let paid = release_escrow(&mut escrow, &account(), &ctx, 1_000);
    assert_eq!(paid, Err(CustomError::Unauthorized));
    assert!(!escrow.is_released);
}

#[test]
fn partial_amount_is_paid_as_asked() {
    let mut escrow = held(1_000);
    let paid = release_escrow(&mut escrow, &account(), &request(OWNER, OWNER, 5_000, 890), 400);
    assert_eq!(paid, Ok(Payout { payee: id(OWNER), amount: 400 }));
    assert_eq!(escrow.amount, 1_000);
    assert!(escrow.is_released);
}

#[test]
fn nothing_may_be_released_from_an_empty_balance() {
    let mut escrow = held(0);
    let paid = release_escrow(&mut escrow, &account(), &request(OWNER, OWNER, 0, 0), 0);
    assert_eq!(paid, Ok(Payout { payee: id(OWNER), amount: 0 }));
    assert!(escrow.is_released);
}
