use ev_charging::address::{
    charger_address, escrow_address, mint_authority_address, session_address, user_address,
    MAX_SEEDS, MAX_SEED_LEN,
};
use ev_charging::identity::Identity;
use solana_program::pubkey::Pubkey;

fn id(byte: u8) -> Identity {
    Identity::new([byte; 32])
}

fn expected(seeds: &[&[u8]], program: u8) -> Option<(Identity, u8)> {
    Pubkey::try_find_program_address(seeds, &Pubkey::new_from_array([program; 32]))
        .map(|(address, bump)| (Identity::new(address.to_bytes()), bump))
}

#[test]
fn seed_limits() {
    assert_eq!(MAX_SEEDS, 16);
    assert_eq!(MAX_SEED_LEN, 32);
}

#[test]
fn charger_address_is_derived_from_the_name() {
    let found = charger_address(&id(9), "Main-St-01");
    assert!(found.is_some());
    assert_eq!(found, expected(&[b"Main-St-01"], 9));
    assert_ne!(found.unwrap().0, id(9));
}

#[test]
fn charger_address_depends_on_name_and_program() {
    assert_ne!(charger_address(&id(9), "Main-St-01"), charger_address(&id(9), "Main-St-02"));
    assert_ne!(charger_address(&id(9), "Main-St-01"), charger_address(&id(8), "Main-St-01"));
    assert_eq!(charger_address(&id(9), "Main-St-01"), charger_address(&id(9), "Main-St-01"));
}

#[test]
fn charger_name_is_taken_as_utf8() {
    let name = "Zürich-01";
    assert_eq!(charger_address(&id(9), name), expected(&[name.as_bytes()], 9));
    assert_eq!(name.as_bytes().len(), 10);
}

#[test]
fn charger_name_of_more_than_32_bytes_has_no_address() {
    let longest = "n".repeat(32);
    let too_long = "n".repeat(33);
    assert!(charger_address(&id(9), &longest).is_some());
    assert_eq!(charger_address(&id(9), &too_long), None);
    let umlauts = "ü".repeat(17);
    assert_eq!(charger_address(&id(9), &umlauts), None);
}

#[test]
fn empty_charger_name_has_an_address() {
    assert_eq!(charger_address(&id(9), ""), expected(&[b""], 9));
}

#[test]
fn user_address_is_derived_from_the_authority() {
    assert_eq!(user_address(&id(9), &id(2)), expected(&[b"user", &[2u8; 32]], 9));
    assert_ne!(user_address(&id(9), &id(2)), user_address(&id(9), &id(3)));
}

#[test]
fn escrow_address_is_derived_from_consumer_charger_and_session() {
    let session_id: u64 = 0x0102_0304_0506_0708;
    assert_eq!(
        escrow_address(&id(9), &id(2), &id(10), session_id),
        expected(&[b"escrow", &[2u8; 32], &[10u8; 32], &[8, 7, 6, 5, 4, 3, 2, 1]], 9)
    );
    assert_ne!(
        escrow_address(&id(9), &id(2), &id(10), 1),
        escrow_address(&id(9), &id(2), &id(10), 2)
    );
    assert_ne!(
        escrow_address(&id(9), &id(2), &id(10), 1),
        escrow_address(&id(9), &id(10), &id(2), 1)
    );
}

#[test]
fn session_address_is_derived_from_consumer_and_time() {
    assert_eq!(
        session_address(&id(9), &id(2), 1_700_000_000),
        expected(&[b"session", &[2u8; 32], &1_700_000_000i64.to_le_bytes()], 9)
    );
    assert_eq!(
        session_address(&id(9), &id(2), -1),
        expected(&[b"session", &[2u8; 32], &[0xff; 8]], 9)
    );
    assert_eq!(
        session_address(&id(9), &id(2), i64::MIN),
        expected(&[b"session", &[2u8; 32], &i64::MIN.to_le_bytes()], 9)
    );
}

#[test]
fn mint_authority_address_is_derived_from_its_seed() {
    assert_eq!(mint_authority_address(&id(9)), expected(&[b"mint-authority"], 9));
    assert_ne!(mint_authority_address(&id(9)), mint_authority_address(&id(8)));
}
