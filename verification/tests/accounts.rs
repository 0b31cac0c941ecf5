use ev_charging::accounts::{initialize_user, InitializeUser};
use ev_charging::address::user_address;
use ev_charging::errors::CustomError;
use ev_charging::identity::Identity;
use ev_charging::records::User;
use ev_charging::store::RecordStore;

fn id(byte: u8) -> Identity {
    Identity::new([byte; 32])
}

#[test]
fn new_account_counts_nothing() {
    let mut users = RecordStore::new();
    let created = initialize_user(&mut users, &InitializeUser { user: id(20), authority: id(2) });
    assert_eq!(created, Ok(()));
    assert_eq!(
        users.get(&id(20)),
        Some(&User {
            authority: id(2),
            charge_count: 0,
            token_balance: 0,
            total_power_consumed: 0,
            total_price_paid: 0,
            total_sessions: 0,
        })
    );
}

#[test]
fn account_is_opened_once() {
    let mut users = RecordStore::new();
    initialize_user(&mut users, &InitializeUser { user: id(20), authority: id(2) }).unwrap();
    let mut account = *users.get(&id(20)).unwrap();
    account.charge_count = 3;
    users.put(id(20), account);
    let again = initialize_user(&mut users, &InitializeUser { user: id(20), authority: id(2) });
    assert_eq!(again, Err(CustomError::KeyAlreadyExists));
    assert_eq!(users.get(&id(20)).unwrap().charge_count, 3);
}

#[test]
fn each_consumer_has_an_address_of_their_own() {
    let first = InitializeUser::locate(&id(9), &id(2)).unwrap();
    let second = InitializeUser::locate(&id(9), &id(3)).unwrap();
    assert_ne!(first.user, second.user);
    assert_eq!(first.authority, id(2));
    assert_eq!(first.user, user_address(&id(9), &id(2)).unwrap().0);
    let mut users = RecordStore::new();
    assert_eq!(initialize_user(&mut users, &first), Ok(()));
    assert_eq!(initialize_user(&mut users, &second), Ok(()));
    assert_eq!(initialize_user(&mut users, &first), Err(CustomError::KeyAlreadyExists));
}
