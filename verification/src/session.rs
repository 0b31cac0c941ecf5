//! The session ledger: one record per finished session, and the running
//! totals of the consumer's account.

use crate::address::{is_address, no_address, session_address, session_seeds};
use crate::errors::CustomError;
use crate::identity::Identity;
use crate::records::{ChargingSession, User};
use crate::store::RecordStore;
use vstd::prelude::*;

verus! {

/// Who records a session, about which charger, and where the record goes.
#[derive(Clone, Copy, Debug)]
pub struct RecordChargingSession {
    /// The address of the new record.
    pub session: Identity,
    /// The address of the charger that was used.
    pub charger: Identity,
    /// The consumer, who signs.
    pub authority: Identity,
}

impl RecordChargingSession {
    /// The context in which the consumer `authority` records the session
    /// that began at `timestamp` at `charger`, with the program
    /// `program_id`: the record goes to the address derived from the
    /// consumer and the time. There is none where no address is derived.
    pub fn locate(
        program_id: &Identity,
        authority: &Identity,
        charger: &Identity,
        timestamp: i64,
    ) -> (ctx: Option<RecordChargingSession>)
        ensures
            match ctx {
                Some(located) => {
                    &&& located.authority == *authority
                    &&& located.charger == *charger
                    &&& is_address(
                        session_seeds(*authority, timestamp),
                        *program_id,
                        located.session,
                    )
                },
                None => no_address(session_seeds(*authority, timestamp), *program_id),
            },
    {
        match session_address(program_id, authority, timestamp) {
            Some((session, _)) => Some(
                RecordChargingSession { session, charger: *charger, authority: *authority },
            ),
            None => None,
        }
    }
}

/// Why recording fails, if it does. The checks come in this order.
pub open spec fn recording_error(
    sessions: Map<Identity, ChargingSession>,
    user: User,
    ctx: RecordChargingSession,
    power: u64,
    price_paid: u64,
) -> Option<CustomError> {
    if ctx.authority != user.authority {
        Some(CustomError::Unauthorized)
    } else if sessions.contains_key(ctx.session) {
        Some(CustomError::KeyAlreadyExists)
    } else if user.total_power_consumed + power > u64::MAX || user.total_price_paid + price_paid
        > u64::MAX || user.total_sessions + 1 > u32::MAX {
        Some(CustomError::ArithmeticOverflow)
    } else {
        None
    }
}

/// The account after a session of `power` at `price_paid` was recorded.
pub open spec fn recorded_user(user: User, power: u64, price_paid: u64) -> User {
    User {
        total_power_consumed: (user.total_power_consumed + power) as u64,
        total_price_paid: (user.total_price_paid + price_paid) as u64,
        total_sessions: (user.total_sessions + 1) as u32,
        ..user
    }
}

/// Records a finished session of the consumer `ctx.authority` at
/// `ctx.session`, and adds it to the totals of the account `user`.
///
/// Fails, and changes nothing, unless the consumer owns the account; where
/// a record lives at that address already; or where a total would no longer
/// fit its counter.
pub fn record_charging_session(
    sessions: &mut RecordStore<ChargingSession>,
    user: &mut User,
    ctx: &RecordChargingSession,
    charger_name: String,
    power: u64,
    price_paid: u64,
    minutes: u32,
    timestamp: i64,
) -> (recorded: Result<(), CustomError>)
    ensures
        match recording_error(old(sessions)@, *old(user), *ctx, power, price_paid) {
            Some(error) => {
                &&& recorded == Err::<(), CustomError>(error)
                &&& *final(user) == *old(user)
                &&& *final(sessions) == *old(sessions)
            },
            None => {
                &&& recorded == Ok::<(), CustomError>(())
                &&& *final(user) == recorded_user(*old(user), power, price_paid)
                &&& final(sessions)@ == old(sessions)@.insert(
                    ctx.session,
                    (ChargingSession {
                        user: ctx.authority,
                        charger: ctx.charger,
                        charger_name,
                        power,
                        price_paid,
                        minutes,
                        timestamp,
                    }),
                )
            },
        },
        final(user).authority == old(user).authority,
{
    if ctx.authority != user.authority {
        return Err(CustomError::Unauthorized);
    }
    if sessions.contains(&ctx.session) {
        return Err(CustomError::KeyAlreadyExists);
    }
    let total_power_consumed = match user.total_power_consumed.checked_add(power) {
        Some(sum) => sum,
        None => {
            return Err(CustomError::ArithmeticOverflow);
        },
    };
    let total_price_paid = match user.total_price_paid.checked_add(price_paid) {
        Some(sum) => sum,
        None => {
            return Err(CustomError::ArithmeticOverflow);
        },
    };
    let total_sessions = match user.total_sessions.checked_add(1) {
        Some(sum) => sum,
        None => {
            return Err(CustomError::ArithmeticOverflow);
        },
    };
    let session = ChargingSession {
        user: ctx.authority,
        charger: ctx.charger,
        charger_name,
        power,
        price_paid,
        minutes,
        timestamp,
    };
    match sessions.insert(ctx.session, session) {
        Ok(()) => {},
        Err(error) => {
            return Err(error);
        },
    }
    user.total_power_consumed = total_power_consumed;
    user.total_price_paid = total_price_paid;
    user.total_sessions = total_sessions;
    Ok(())
}

} // verus!
