//! The records that the operations create and change.

use crate::identity::Identity;
use vstd::prelude::*;

verus! {

/// Where a charger stands. Each coordinate is held as the bit pattern of
/// its decimal value in IEEE 754 binary64, so that it is kept exactly.
#[derive(Clone, Copy, Debug, PartialEq, Eq)]
pub struct GeoPoint {
    pub latitude_bits: u64,
    pub longitude_bits: u64,
}

/// A provider's listing of one charger. The owner is set when the listing is
/// created, and only the owner changes the listing.
#[derive(Clone, Debug, PartialEq, Eq)]
pub struct Charger {
    pub owner: Identity,
    pub name: String,
    pub address: String,
    pub city: String,
    pub state: String,
    pub zip: String,
    pub description: String,
    pub charger_type: String,
    /// Power rating.
    pub power: u64,
    /// Baseline price of a session, in the smallest unit of the currency.
    pub price: u64,
    pub connector_types: String,
    pub location: Option<GeoPoint>,
}

impl Charger {
    /// Bytes set aside for a stored listing.
    pub const MAX_SIZE: usize = 32 + 4 + 50 + 4 + 100 + 4 + 50 + 4 + 20 + 4 + 10 + 4 + 200 + 4 + 50
        + 8 + 8 + 4 + 50 + 8 + 8;
}

/// The account of one consumer.
#[derive(Clone, Copy, Debug, PartialEq, Eq)]
pub struct User {
    /// The consumer that owns this account. Fixed when the account is made.
    pub authority: Identity,
    /// Funded sessions so far, counted modulo 256.
    pub charge_count: u8,
    /// Reward credits that this account has earned.
    pub token_balance: u64,
    pub total_power_consumed: u64,
    pub total_price_paid: u64,
    pub total_sessions: u32,
}

impl User {
    /// Bytes set aside for a stored account.
    pub const MAX_SIZE: usize = 32 + 1 + 8 + 8 + 8 + 4;

    /// The account of `authority` before any session.
    pub open spec fn fresh(authority: Identity) -> User {
        User {
            authority,
            charge_count: 0,
            token_balance: 0,
            total_power_consumed: 0,
            total_price_paid: 0,
            total_sessions: 0,
        }
    }
}

/// Currency held for one funded session until it is paid out.
#[derive(Clone, Copy, Debug, PartialEq, Eq)]
pub struct Escrow {
    /// The address of the account of the consumer that funded the session.
    pub user: Identity,
    /// The payee: the owner of the charger when the session was funded.
    pub owner: Identity,
    /// The currency that was deposited, after the discount.
    pub amount: u64,
    /// Whether the escrow was paid out. Once true it stays true.
    pub is_released: bool,
}

impl Escrow {
    /// Bytes set aside for a stored escrow.
    pub const MAX_SIZE: usize = 32 + 32 + 8 + 1;
}

/// The record of one session, written once and never changed.
#[derive(Clone, Debug, PartialEq, Eq)]
pub struct ChargingSession {
    pub user: Identity,
    pub charger: Identity,
    /// The charger's name when the session was recorded.
    pub charger_name: String,
    pub power: u64,
    pub price_paid: u64,
    pub minutes: u32,
    pub timestamp: i64,
}

impl ChargingSession {
    /// Bytes set aside for a stored session.
    pub const MAX_SIZE: usize = 32 + 32 + 4 + 50 + 8 + 8 + 4 + 8;
}

} // verus!
