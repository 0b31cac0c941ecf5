//! The registry of chargers: a provider lists a charger once and may change
//! the listing afterwards.

use crate::address::{charger_address, charger_seeds, is_address, no_address};
use crate::errors::CustomError;
use crate::identity::Identity;
use crate::records::{Charger, GeoPoint};
use crate::store::RecordStore;
use vstd::prelude::*;

verus! {

/// Who lists a charger, and where the listing goes.
#[derive(Clone, Copy, Debug)]
pub struct CreateCharger {
    /// The address of the new listing.
    pub charger: Identity,
    /// The provider who signs; the owner of the new listing.
    pub payer: Identity,
}

impl CreateCharger {
    /// The context in which `payer` lists the charger called `name` with the
    /// program `program_id`: the listing goes to the address derived from
    /// the name. There is none where the name derives no address.
    pub fn locate(program_id: &Identity, payer: &Identity, name: &str) -> (ctx: Option<
        CreateCharger,
    >)
        ensures
            match ctx {
                Some(located) => located.payer == *payer && is_address(
                    charger_seeds(name@),
                    *program_id,
                    located.charger,
                ),
                None => no_address(charger_seeds(name@), *program_id),
            },
    {
        match charger_address(program_id, name) {
            Some((charger, _)) => Some(CreateCharger { charger, payer: *payer }),
            None => None,
        }
    }
}

/// Who asks for a change of a listing.
#[derive(Clone, Copy, Debug)]
pub struct UpdateCharger {
    /// The signer, who has to be the owner of the listing.
    pub owner: Identity,
}

/// Lists a charger at `ctx.charger` with `ctx.payer` as its owner and every
/// other field as given. Fails, and changes nothing, where a listing lives at
/// that address already.
pub fn create_charger(
    chargers: &mut RecordStore<Charger>,
    ctx: &CreateCharger,
    name: String,
    address: String,
    city: String,
    state: String,
    zip: String,
    description: String,
    charger_type: String,
    power: u64,
    price: u64,
    connector_types: String,
    location: Option<GeoPoint>,
) -> (created: Result<(), CustomError>)
    ensures
        created is Ok <==> !old(chargers)@.contains_key(ctx.charger),
        created is Ok ==> final(chargers)@ == old(chargers)@.insert(
            ctx.charger,
            (Charger {
                owner: ctx.payer,
                name,
                address,
                city,
                state,
                zip,
                description,
                charger_type,
                power,
                price,
                connector_types,
                location,
            }),
        ),
        created is Err ==> created == Err::<(), CustomError>(CustomError::KeyAlreadyExists)
            && *final(chargers) == *old(chargers),
{
    let charger = Charger {
        owner: ctx.payer,
        name,
        address,
        city,
        state,
        zip,
        description,
        charger_type,
        power,
        price,
        connector_types,
        location,
    };
    chargers.insert(ctx.charger, charger)
}

/// Overwrites every field of the listing but its owner. Fails, and changes
/// nothing, unless the signer is the owner.
pub fn update_charger(
    charger: &mut Charger,
    ctx: &UpdateCharger,
    name: String,
    address: String,
    city: String,
    state: String,
    zip: String,
    description: String,
    charger_type: String,
    power: u64,
    price: u64,
    connector_types: String,
    location: Option<GeoPoint>,
) -> (updated: Result<(), CustomError>)
    ensures
        updated is Ok <==> ctx.owner == old(charger).owner,
        updated is Ok ==> *final(charger) == (Charger {
            owner: old(charger).owner,
            name,
            address,
            city,
            state,
            zip,
            description,
            charger_type,
            power,
            price,
            connector_types,
            location,
        }),
        updated is Err ==> updated == Err::<(), CustomError>(CustomError::Unauthorized)
            && *final(charger) == *old(charger),
        final(charger).owner == old(charger).owner,
{
    if charger.owner != ctx.owner {
        return Err(CustomError::Unauthorized);
    }
    charger.name = name;
    charger.address = address;
    charger.city = city;
    charger.state = state;
    charger.zip = zip;
    charger.description = description;
    charger.charger_type = charger_type;
    charger.power = power;
    charger.price = price;
    charger.connector_types = connector_types;
    charger.location = location;
    Ok(())
}

} // verus!
