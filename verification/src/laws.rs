//! What holds of the operations taken together.

use crate::errors::CustomError;
use crate::escrow::{
    funded_user, funding_error, release_error, released, ReleaseEscrow, StartCharge,
};
use crate::identity::Identity;
use crate::records::{ChargingSession, Escrow, User};
use crate::reward::{earns_reward, REWARD_CADENCE};
use crate::session::{recording_error, RecordChargingSession};
use vstd::prelude::*;

verus! {

/// An escrow is released at most once: after a release that succeeded,
/// every further release of the same escrow fails as already released,
/// whoever asks, for whatever amount and whatever balance.
pub proof fn lemma_release_once(
    escrow: Escrow,
    user: User,
    ctx: ReleaseEscrow,
    amount: u64,
    again_user: User,
    again_ctx: ReleaseEscrow,
    again_amount: u64,
)
    requires
        release_error(escrow, user, ctx, amount) is None,
    ensures
        release_error(released(escrow), again_user, again_ctx, again_amount) == Some(
            CustomError::AlreadyReleased,
        ),
{
}

/// A session is funded at most once: after a funding that succeeded, the
/// same request fails because its escrow exists, whatever the account
/// counts by then and whatever the escrow holds.
pub proof fn lemma_funding_once(
    escrows: Map<Identity, Escrow>,
    user: User,
    ctx: StartCharge,
    amount: u64,
    credits: u64,
    credit_value: u64,
    later_user: User,
    held: Escrow,
)
    requires
        funding_error(escrows, user, ctx, amount, credits, credit_value) is None,
    ensures
        funding_error(
            escrows.insert(ctx.escrow, held),
            later_user,
            ctx,
            amount,
            credits,
            credit_value,
        ) == Some(CustomError::KeyAlreadyExists),
{
}

/// A session is recorded at most once: after a recording that succeeded,
/// the consumer's next request for the same address fails because the record
/// exists, whatever is to be recorded.
pub proof fn lemma_recording_once(
    sessions: Map<Identity, ChargingSession>,
    user: User,
    ctx: RecordChargingSession,
    power: u64,
    price_paid: u64,
    written: ChargingSession,
    later_user: User,
    later_power: u64,
    later_price_paid: u64,
)
    requires
        recording_error(sessions, user, ctx, power, price_paid) is None,
        later_user.authority == user.authority,
    ensures
        recording_error(
            sessions.insert(ctx.session, written),
            later_user,
            ctx,
            later_power,
            later_price_paid,
        ) == Some(CustomError::KeyAlreadyExists),
{
}

/// The account `user` after `sessions` further sessions that were funded in
/// currency alone.
pub open spec fn after_sessions(user: User, sessions: nat) -> User
    decreases sessions,
{
    if sessions == 0 {
        user
    } else {
        funded_user(after_sessions(user, (sessions - 1) as nat), 0)
    }
}

/// A new account that funds session after session in currency alone earns
/// one credit with every fourth session and none with the others: session
/// number `number` earns a credit exactly when `number` is a multiple of the
/// cadence. The account's session count is the number of sessions modulo
/// 256, and its credits are the number of sessions divided by the cadence.
pub proof fn lemma_reward_cadence(authority: Identity, number: nat)
    requires
        number >= 1,
    ensures
        earns_reward(
            after_sessions(User::fresh(authority), (number - 1) as nat).charge_count,
            0,
        ) <==> number % (REWARD_CADENCE as nat) == 0,
        after_sessions(User::fresh(authority), number).charge_count == number % 256,
        number / (REWARD_CADENCE as nat) <= u64::MAX ==> after_sessions(
            User::fresh(authority),
            number,
        ).token_balance == number / (REWARD_CADENCE as nat),
        after_sessions(User::fresh(authority), number).authority == authority,
    decreases number,
{
    if number > 1 {
        lemma_reward_cadence(authority, (number - 1) as nat);
    }
}

/// A session that redeems credits earns none, whatever the account counts.
pub proof fn lemma_no_reward_on_redemption(charge_count: u8, credits: u64)
    requires
        credits > 0,
    ensures
        !earns_reward(charge_count, credits),
{
}

} // verus!
