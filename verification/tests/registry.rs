use ev_charging::address::charger_address;
use ev_charging::errors::CustomError;
use ev_charging::identity::Identity;
use ev_charging::records::{Charger, GeoPoint};
use ev_charging::registry::{create_charger, update_charger, CreateCharger, UpdateCharger};
use ev_charging::store::RecordStore;

fn id(byte: u8) -> Identity {
    Identity::new([byte; 32])
}

fn text(value: &str) -> String {
    value.to_string()
}

fn spot() -> Option<GeoPoint> {
    Some(GeoPoint { latitude_bits: 39.7817f64.to_bits(), longitude_bits: (-89.6501f64).to_bits() })
}

fn list(chargers: &mut RecordStore<Charger>, ctx: &CreateCharger, price: u64) -> Result<(), CustomError> {
    create_charger(
        chargers,
        ctx,
        text("Main-St-01"),
        text("1 Main St"),
        text("Springfield"),
        text("IL"),
        text("62701"),
        text("Kerbside"),
        text("DC"),
        150,
        price,
        text("CCS"),
        spot(),
    )
}

fn listed(owner: Identity, price: u64) -> Charger {
    Charger {
        owner,
        name: text("Main-St-01"),
        address: text("1 Main St"),
        city: text("Springfield"),
        state: text("IL"),
        zip: text("62701"),
        description: text("Kerbside"),
        charger_type: text("DC"),
        power: 150,
        price,
        connector_types: text("CCS"),
        location: spot(),
    }
}

fn change(charger: &mut Charger, signer: Identity) -> Result<(), CustomError> {
    update_charger(
        charger,
        &UpdateCharger { owner: signer },
        text("Main-St-01b"),
        text("2 Main St"),
        text("Shelbyville"),
        text("IN"),
        text("46176"),
        text("Car park"),
        text("AC"),
        22,
        400_000,
        text("Type 2"),
        None,
    )
}

#[test]
fn created_charger_belongs_to_the_payer() {
    let mut chargers = RecordStore::new();
    let ctx = CreateCharger { charger: id(10), payer: id(1) };
    assert_eq!(list(&mut chargers, &ctx, 1_000_000), Ok(()));
    assert_eq!(chargers.get(&id(10)), Some(&listed(id(1), 1_000_000)));
}

#[test]
fn second_charger_at_one_address_is_refused() {
    let mut chargers = RecordStore::new();
    list(&mut chargers, &CreateCharger { charger: id(10), payer: id(1) }, 1_000_000).unwrap();
    let again = list(&mut chargers, &CreateCharger { charger: id(10), payer: id(2) }, 5);
    assert_eq!(again, Err(CustomError::KeyAlreadyExists));
    assert_eq!(chargers.get(&id(10)), Some(&listed(id(1), 1_000_000)));
}

#[test]
fn same_name_is_one_address() {
    let mut chargers = RecordStore::new();
    let first = CreateCharger::locate(&id(9), &id(1), "Main-St-01").unwrap();
    let second = CreateCharger::locate(&id(9), &id(2), "Main-St-01").unwrap();
    assert_eq!(first.charger, second.charger);
    assert_eq!(first.charger, charger_address(&id(9), "Main-St-01").unwrap().0);
    assert_eq!(first.payer, id(1));
    assert_eq!(list(&mut chargers, &first, 1), Ok(()));
    assert_eq!(list(&mut chargers, &second, 1), Err(CustomError::KeyAlreadyExists));
}

#[test]
fn name_too_long_for_a_seed_has_no_context() {
    let name = "a".repeat(33);
    assert!(CreateCharger::locate(&id(9), &id(1), &name).is_none());
    assert!(CreateCharger::locate(&id(9), &id(1), &name[..32]).is_some());
}

#[test]
fn owner_updates_every_field_but_the_owner() {
    let mut charger = listed(id(1), 1_000_000);
    assert_eq!(change(&mut charger, id(1)), Ok(()));
    assert_eq!(
        charger,
        Charger {
            owner: id(1),
            name: text("Main-St-01b"),
            address: text("2 Main St"),
            city: text("Shelbyville"),
            state: text("IN"),
            zip: text("46176"),
            description: text("Car park"),
            charger_type: text("AC"),
            power: 22,
            price: 400_000,
            connector_types: text("Type 2"),
            location: None,
        }
    );
}

#[test]
fn update_by_another_identity_changes_nothing() {
    let mut charger = listed(id(1), 1_000_000);
    assert_eq!(change(&mut charger, id(2)), Err(CustomError::Unauthorized));
    assert_eq!(charger, listed(id(1), 1_000_000));
}

#[test]
fn identity_that_differs_in_one_byte_is_another_identity() {
    let mut bytes = [1u8; 32];
    bytes[31] = 2;
    let mut charger = listed(id(1), 1_000_000);
    assert_eq!(change(&mut charger, Identity::new(bytes)), Err(CustomError::Unauthorized));
    assert_eq!(charger, listed(id(1), 1_000_000));
}

#[test]
fn sizes_set_aside_for_records() {
    assert_eq!(Charger::MAX_SIZE, 626);
    assert_eq!(ev_charging::records::User::MAX_SIZE, 61);
    assert_eq!(ev_charging::records::Escrow::MAX_SIZE, 73);
    assert_eq!(ev_charging::records::ChargingSession::MAX_SIZE, 146);
}
