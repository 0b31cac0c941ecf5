//! The escrow engine. Funding a session computes the split between currency
//! and redeemed credits, creates the escrow and applies the reward policy;
//! releasing pays the escrow out to its payee, once.
//!
//! Both operations decide and record; they move no funds themselves. What
//! has to be moved is handed back (`FundingPlan`, `Payout`) for the caller to
//! carry out in the same transaction.

use crate::address::{escrow_address, escrow_seeds, is_address, no_address};
use crate::errors::CustomError;
use crate::identity::Identity;
use crate::records::{Charger, Escrow, User};
use crate::reward::{earns_reward, next_charge_count, reward_due, MintAuthority};
use crate::store::RecordStore;
use vstd::prelude::*;

verus! {

/// What funding a session reads besides the account and the charger. The
/// consumer who funds is the authority of the account: they sign and pay.
#[derive(Clone, Copy, Debug)]
pub struct StartCharge {
    /// The address of the consumer's account.
    pub user: Identity,
    /// The address of the escrow to create.
    pub escrow: Identity,
    /// The redeemable credits that the consumer holds.
    pub reward_balance: u64,
    /// The credential under which a reward is minted.
    pub mint_authority: MintAuthority,
}

impl StartCharge {
    /// The context in which the consumer `authority`, whose account lives at
    /// `user` and who holds `reward_balance` credits, funds the session
    /// `session_id` at the charger at `charger`, with the program
    /// `program_id`: the escrow goes to the address derived from the
    /// consumer, the charger and the session. There is none where no address
    /// is derived.
    pub fn locate(
        program_id: &Identity,
        authority: &Identity,
        user: &Identity,
        charger: &Identity,
        session_id: u64,
        reward_balance: u64,
        mint_authority: MintAuthority,
    ) -> (ctx: Option<StartCharge>)
        ensures
            match ctx {
                Some(located) => {
                    &&& located.user == *user
                    &&& located.reward_balance == reward_balance
                    &&& located.mint_authority == mint_authority
                    &&& is_address(
                        escrow_seeds(*authority, *charger, session_id),
                        *program_id,
                        located.escrow,
                    )
                },
                None => no_address(escrow_seeds(*authority, *charger, session_id), *program_id),
            },
    {
        match escrow_address(program_id, authority, charger, session_id) {
            Some((escrow, _)) => Some(
                StartCharge { user: *user, escrow, reward_balance, mint_authority },
            ),
            None => None,
        }
    }
}

/// One credit to mint to the consumer, and the credential to mint it under.
#[derive(Clone, Copy, Debug, PartialEq, Eq)]
pub struct RewardGrant {
    pub authority: MintAuthority,
    pub credits: u64,
}

/// The transfers that belong to a funded session.
#[derive(Clone, Copy, Debug, PartialEq, Eq)]
pub struct FundingPlan {
    /// The consumer, from whom currency and credits are taken: the
    /// authority of the account.
    pub payer: Identity,
    /// The address whose backing balance receives the currency.
    pub escrow: Identity,
    /// Currency to move from the payer into the escrow.
    pub net_amount: u64,
    /// The charger's owner, who receives the redeemed credits.
    pub credit_payee: Identity,
    /// Credits to move from the payer to the charger's owner.
    pub credits_redeemed: u64,
    /// The credit that the session earns, if it earns one.
    pub reward: Option<RewardGrant>,
}

/// What releasing an escrow reads besides the escrow and the account.
#[derive(Clone, Copy, Debug)]
pub struct ReleaseEscrow {
    /// The address of the account that is presented with the request.
    pub user: Identity,
    /// The caller, who signs.
    pub authority: Identity,
    /// The payee that the caller names.
    pub recipient: Identity,
    /// The balance that backs the escrow now.
    pub escrow_balance: u64,
    /// The reserve that the backing balance has to keep.
    pub rent_exemption: u64,
}

/// Currency to move out of an escrow's backing balance to its payee.
#[derive(Clone, Copy, Debug, PartialEq, Eq)]
pub struct Payout {
    pub payee: Identity,
    pub amount: u64,
}

/// The discount that `credits` credits of `credit_value` each give.
pub open spec fn discount(credits: u64, credit_value: u64) -> int {
    credits as int * credit_value as int
}

/// Why funding fails, if it does. The checks come in this order.
pub open spec fn funding_error(
    escrows: Map<Identity, Escrow>,
    user: User,
    ctx: StartCharge,
    amount: u64,
    credits: u64,
    credit_value: u64,
) -> Option<CustomError> {
    if discount(credits, credit_value) > u64::MAX {
        Some(CustomError::ArithmeticOverflow)
    } else if discount(credits, credit_value) > amount {
        Some(CustomError::InvalidDiscount)
    } else if credits > ctx.reward_balance {
        Some(CustomError::NotEnoughCredits)
    } else if escrows.contains_key(ctx.escrow) {
        Some(CustomError::KeyAlreadyExists)
    } else if earns_reward(user.charge_count, credits) && user.token_balance == u64::MAX {
        Some(CustomError::ArithmeticOverflow)
    } else {
        None
    }
}

/// The account after it funded a session and redeemed `credits` credits.
pub open spec fn funded_user(user: User, credits: u64) -> User {
    User {
        charge_count: next_charge_count(user.charge_count),
        token_balance: if earns_reward(user.charge_count, credits) {
            (user.token_balance + 1) as u64
        } else {
            user.token_balance
        },
        ..user
    }
}

/// The escrow of a session funded with `net_amount` at a charger of `owner`.
pub open spec fn funded_escrow(ctx: StartCharge, owner: Identity, net_amount: u64) -> Escrow {
    Escrow { user: ctx.user, owner, amount: net_amount, is_released: false }
}

/// The transfers of a session funded with `amount` less the discount.
pub open spec fn funding_plan(
    user: User,
    owner: Identity,
    ctx: StartCharge,
    amount: u64,
    credits: u64,
    credit_value: u64,
) -> FundingPlan {
    FundingPlan {
        payer: user.authority,
        escrow: ctx.escrow,
        net_amount: (amount - discount(credits, credit_value)) as u64,
        credit_payee: owner,
        credits_redeemed: credits,
        reward: if earns_reward(user.charge_count, credits) {
            Some(RewardGrant { authority: ctx.mint_authority, credits: 1 })
        } else {
            None
        },
    }
}

/// Funds a session of `user` at `charger`: `amount` is due, of which
/// `credits` reward credits worth `credit_value` each are paid in credits and
/// the rest in currency.
///
/// On success the escrow is created at `ctx.escrow` with the owner of the
/// charger as payee and exactly the currency part as its amount; the account
/// counts one more session, and one more credit where the session earns one;
/// the plan names the transfers. A session that redeems credits earns none.
/// On failure nothing changes.
pub fn start_charge(
    escrows: &mut RecordStore<Escrow>,
    user: &mut User,
    charger: &Charger,
    ctx: &StartCharge,
    amount: u64,
    credits: u64,
    credit_value: u64,
) -> (funded: Result<FundingPlan, CustomError>)
    ensures
        match funding_error(old(escrows)@, *old(user), *ctx, amount, credits, credit_value) {
            Some(error) => {
                &&& funded == Err::<FundingPlan, CustomError>(error)
                &&& *final(user) == *old(user)
                &&& *final(escrows) == *old(escrows)
            },
            None => {
                &&& funded == Ok::<FundingPlan, CustomError>(
                    funding_plan(*old(user), charger.owner, *ctx, amount, credits, credit_value),
                )
                &&& *final(user) == funded_user(*old(user), credits)
                &&& final(escrows)@ == old(escrows)@.insert(
                    ctx.escrow,
                    funded_escrow(
                        *ctx,
                        charger.owner,
                        (amount - discount(credits, credit_value)) as u64,
                    ),
                )
            },
        },
        funded matches Ok(plan) ==> {
            &&& plan.net_amount == amount - credits * credit_value
            &&& final(escrows)@[ctx.escrow].amount == plan.net_amount
        },
        credits * credit_value <= u64::MAX && credits * credit_value > amount ==> funded == Err::<
            FundingPlan,
            CustomError,
        >(CustomError::InvalidDiscount),
        funded matches Ok(plan) ==> (credits > 0 ==> plan.reward is None),
        final(user).authority == old(user).authority,
        funded != Err::<FundingPlan, CustomError>(CustomError::ArithmeticUnderflow),
{
    let discount = match credits.checked_mul(credit_value) {
        Some(product) => product,
        None => {
            return Err(CustomError::ArithmeticOverflow);
        },
    };
    if discount > amount {
        return Err(CustomError::InvalidDiscount);
    }
    let net_amount = match amount.checked_sub(discount) {
        Some(rest) => rest,
        None => {
            return Err(CustomError::ArithmeticUnderflow);
        },
    };
    if credits > 0 && ctx.reward_balance < credits {
        return Err(CustomError::NotEnoughCredits);
    }
    if escrows.contains(&ctx.escrow) {
        return Err(CustomError::KeyAlreadyExists);
    }
    let rewarded = reward_due(user.charge_count, credits);
    let token_balance = if rewarded {
        match user.token_balance.checked_add(1) {
            Some(more) => more,
            None => {
                return Err(CustomError::ArithmeticOverflow);
            },
        }
    } else {
        user.token_balance
    };
    let escrow = Escrow {
        user: ctx.user,
        owner: charger.owner,
        amount: net_amount,
        is_released: false,
    };
    match escrows.insert(ctx.escrow, escrow) {
        Ok(()) => {},
        Err(error) => {
            return Err(error);
        },
    }
    user.charge_count = user.charge_count.wrapping_add(1);
    user.token_balance = token_balance;
    let reward = if rewarded {
        Some(RewardGrant { authority: ctx.mint_authority, credits: 1 })
    } else {
        None
    };
    Ok(
        FundingPlan {
            payer: user.authority,
            escrow: ctx.escrow,
            net_amount,
            credit_payee: charger.owner,
            credits_redeemed: credits,
            reward,
        },
    )
}

/// Whether the caller may have `escrow` paid out: the account presented is
/// the one that funded it, and the caller is the payee, or is the consumer
/// of that account and names the payee as recipient.
pub open spec fn may_release(escrow: Escrow, user: User, ctx: ReleaseEscrow) -> bool {
    &&& ctx.user == escrow.user
    &&& ctx.authority == escrow.owner || (ctx.authority == user.authority && ctx.recipient
        == escrow.owner)
}

/// Why a release fails, if it does. The checks come in this order.
pub open spec fn release_error(
    escrow: Escrow,
    user: User,
    ctx: ReleaseEscrow,
    amount: u64,
) -> Option<CustomError> {
    if escrow.is_released {
        Some(CustomError::AlreadyReleased)
    } else if ctx.escrow_balance < amount + ctx.rent_exemption {
        Some(CustomError::InsufficientFunds)
    } else if !may_release(escrow, user, ctx) {
        Some(CustomError::Unauthorized)
    } else {
        None
    }
}

/// What is paid out of a backing balance of `balance` that has to keep
/// `reserve`, when `amount` is asked for.
pub open spec fn payout_amount(amount: u64, balance: u64, reserve: u64) -> int {
    if amount <= balance - reserve {
        amount as int
    } else {
        balance - reserve
    }
}

/// The escrow after its release.
pub open spec fn released(escrow: Escrow) -> Escrow {
    Escrow { is_released: true, ..escrow }
}

/// Releases `escrow`: `amount` is to be paid out of its backing balance,
/// which has to keep its reserve. `user` is the account presented with the
/// request.
///
/// On success the escrow is marked released for good, and the payout names
/// the escrow's payee and the amount. On failure nothing changes. A released
/// escrow is never released again.
pub fn release_escrow(escrow: &mut Escrow, user: &User, ctx: &ReleaseEscrow, amount: u64) -> (paid:
    Result<Payout, CustomError>)
    ensures
        match release_error(*old(escrow), *user, *ctx, amount) {
            Some(error) => {
                &&& paid == Err::<Payout, CustomError>(error)
                &&& *final(escrow) == *old(escrow)
            },
            None => {
                &&& paid == Ok::<Payout, CustomError>(
                    (Payout {
                        payee: old(escrow).owner,
                        amount: payout_amount(
                            amount,
                            ctx.escrow_balance,
                            ctx.rent_exemption,
                        ) as u64,
                    }),
                )
                &&& *final(escrow) == released(*old(escrow))
            },
        },
        paid matches Ok(payout) ==> {
            &&& payout.amount == amount
            &&& payout.payee == ctx.authority || payout.payee == ctx.recipient
        },
        old(escrow).is_released ==> final(escrow).is_released,
{
    if escrow.is_released {
        return Err(CustomError::AlreadyReleased);
    }
    let needed = match amount.checked_add(ctx.rent_exemption) {
        Some(sum) => sum,
        None => {
            return Err(CustomError::InsufficientFunds);
        },
    };
    if ctx.escrow_balance < needed {
        return Err(CustomError::InsufficientFunds);
    }
    let available = ctx.escrow_balance - ctx.rent_exemption;
    let transfer_amount = if amount <= available {
        amount
    } else {
        available
    };
    if ctx.user != escrow.user {
        return Err(CustomError::Unauthorized);
    }
    let payee = if ctx.authority == escrow.owner {
        ctx.authority
    } else {
        if ctx.authority != user.authority || ctx.recipient != escrow.owner {
            return Err(CustomError::Unauthorized);
        }
        ctx.recipient
    };
    escrow.is_released = true;
    Ok(Payout { payee, amount: transfer_amount })
}

} // verus!
