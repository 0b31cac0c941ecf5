//! The ledger of consumer accounts.

use crate::address::{is_address, no_address, user_address, user_seeds};
use crate::errors::CustomError;
use crate::identity::Identity;
use crate::records::User;
use crate::store::RecordStore;
use vstd::prelude::*;

verus! {

/// Who opens an account, and where it goes.
#[derive(Clone, Copy, Debug)]
pub struct InitializeUser {
    /// The address of the new account.
    pub user: Identity,
    /// The consumer who signs; the authority of the new account.
    pub authority: Identity,
}

impl InitializeUser {
    /// The context in which the consumer `authority` opens an account with
    /// the program `program_id`: the account goes to the address derived
    /// from the consumer. There is none where no address is derived.
    pub fn locate(program_id: &Identity, authority: &Identity) -> (ctx: Option<InitializeUser>)
        ensures
            match ctx {
                Some(located) => located.authority == *authority && is_address(
                    user_seeds(*authority),
                    *program_id,
                    located.user,
                ),
                None => no_address(user_seeds(*authority), *program_id),
            },
    {
        match user_address(program_id, authority) {
            Some((user, _)) => Some(InitializeUser { user, authority: *authority }),
            None => None,
        }
    }
}

/// Opens the account of `ctx.authority` at `ctx.user` with every counter at
/// zero. Fails, and changes nothing, where an account lives at that address
/// already.
pub fn initialize_user(users: &mut RecordStore<User>, ctx: &InitializeUser) -> (created: Result<
    (),
    CustomError,
>)
    ensures
        created is Ok <==> !old(users)@.contains_key(ctx.user),
        created is Ok ==> final(users)@ == old(users)@.insert(ctx.user, User::fresh(ctx.authority)),
        created is Err ==> created == Err::<(), CustomError>(CustomError::KeyAlreadyExists)
            && *final(users) == *old(users),
{
    let user = User {
        authority: ctx.authority,
        charge_count: 0,
        token_balance: 0,
        total_power_consumed: 0,
        total_price_paid: 0,
        total_sessions: 0,
    };
    users.insert(ctx.user, user)
}

} // verus!
