//! The reward policy: every fourth session that is paid in currency alone
//! earns the consumer one redeemable credit.

use crate::address::{derived, mint_authority_address, mint_authority_seeds};
use crate::identity::Identity;
use vstd::arithmetic::power::{lemma_pow0, lemma_pow_increases, pow};
use vstd::prelude::*;

verus! {

/// A credit is earned with every session whose number is a multiple of this.
pub const REWARD_CADENCE: u8 = 4;

/// The reward mint counts whole credits.
pub const REWARD_MINT_DECIMALS: u8 = 0;

/// The program on whose behalf reward credits are minted.
#[derive(Clone, Copy, Debug)]
pub struct InitializeRewardMint {
    pub program_id: Identity,
}

/// The credential under which reward credits are minted: the address that a
/// program derives for minting, with its bump seed. It is held by the
/// program, not by a user, and only `initialize_reward_mint` makes one.
#[derive(Clone, Copy, Debug, PartialEq, Eq)]
pub struct MintAuthority {
    program_id: Identity,
    address: Identity,
    bump: u8,
}

impl MintAuthority {
    #[verifier::type_invariant]
    spec fn is_derived(&self) -> bool {
        derived(mint_authority_seeds(), self.program_id, Some((self.address, self.bump)))
    }

    /// The program that mints under this credential.
    pub closed spec fn program_id_of(&self) -> Identity {
        self.program_id
    }

    /// The address that signs a mint.
    pub closed spec fn address_of(&self) -> Identity {
        self.address
    }

    /// The bump seed that the address was derived with.
    pub closed spec fn bump_of(&self) -> u8 {
        self.bump
    }

    /// The program that mints under this credential.
    pub fn program_id(&self) -> (program_id: Identity)
        ensures
            program_id == self.program_id_of(),
    {
        self.program_id
    }

    /// The address that signs a mint: the one that the program derives for
    /// minting.
    pub fn address(&self) -> (address: Identity)
        ensures
            address == self.address_of(),
            derived(mint_authority_seeds(), self.program_id_of(), Some((address, self.bump_of()))),
    {
        proof {
            use_type_invariant(self);
        }
        self.address
    }

    /// The bump seed that the address was derived with.
    pub fn bump(&self) -> (bump: u8)
        ensures
            bump == self.bump_of(),
    {
        self.bump
    }
}

/// The mint of reward credits.
#[derive(Clone, Copy, Debug, PartialEq, Eq)]
pub struct RewardMint {
    /// Decimal places of one credit in the units that the mint counts.
    pub decimals: u8,
    pub authority: MintAuthority,
}

/// Sets up the reward mint of the program `ctx.program_id`: it counts whole
/// credits, and its authority is the address that the program derives for
/// minting. There is no mint where the program derives no such address.
pub fn initialize_reward_mint(ctx: &InitializeRewardMint) -> (mint: Option<RewardMint>)
    ensures
        match mint {
            Some(made) => {
                &&& made.decimals == REWARD_MINT_DECIMALS
                &&& made.authority.program_id_of() == ctx.program_id
                &&& derived(
                    mint_authority_seeds(),
                    ctx.program_id,
                    Some((made.authority.address_of(), made.authority.bump_of())),
                )
            },
            None => derived(mint_authority_seeds(), ctx.program_id, None),
        },
{
    match mint_authority_address(&ctx.program_id) {
        Some((address, bump)) => Some(
            RewardMint {
                decimals: REWARD_MINT_DECIMALS,
                authority: MintAuthority { program_id: ctx.program_id, address, bump },
            },
        ),
        None => None,
    }
}

/// Whether the session funded by an account that counts `charge_count`
/// sessions before it earns a credit: it is paid without redeeming credits,
/// and its number is a multiple of the cadence.
pub open spec fn earns_reward(charge_count: u8, credits_redeemed: u64) -> bool {
    credits_redeemed == 0 && (charge_count + 1) % (REWARD_CADENCE as int) == 0
}

/// The session count after one more session. The count starts again at zero
/// after 255; 256 is a multiple of the cadence, so the cadence is kept.
pub open spec fn next_charge_count(charge_count: u8) -> u8 {
    if charge_count == u8::MAX {
        0
    } else {
        (charge_count + 1) as u8
    }
}

/// Whether the session funded by an account that counts `charge_count`
/// sessions before it earns a credit.
pub fn reward_due(charge_count: u8, credits_redeemed: u64) -> (due: bool)
    ensures
        due == earns_reward(charge_count, credits_redeemed),
{
    credits_redeemed == 0 && charge_count % REWARD_CADENCE == REWARD_CADENCE - 1
}

/// The units that a mint with `decimals` decimal places counts for one
/// whole credit: ten to the power of `decimals`, or none where that does not
/// fit 64 bits.
pub fn whole_credit_units(decimals: u8) -> (units: Option<u64>)
    ensures
        match units {
            Some(n) => n == pow(10, decimals as nat),
            None => pow(10, decimals as nat) > u64::MAX,
        },
{
    let mut units: u64 = 1;
    let mut done: u8 = 0;
    proof {
        lemma_pow0(10);
    }
    while done < decimals
        invariant
            done <= decimals,
            units == pow(10, done as nat),
        decreases decimals - done,
    {
        proof {
            reveal_with_fuel(pow, 2);
        }
        match units.checked_mul(10) {
            Some(next) => {
                units = next;
            },
            None => {
                proof {
                    lemma_pow_increases(10, (done + 1) as nat, decimals as nat);
                }
                return None;
            },
        }
        done = done + 1;
    }
    Some(units)
}

/// The units that a mint with `decimals` decimal places counts for
/// `credits` whole credits, or none where they do not fit 64 bits.
pub fn credit_units(credits: u64, decimals: u8) -> (units: Option<u64>)
    ensures
        match units {
            Some(n) => n == credits * pow(10, decimals as nat),
            None => credits * pow(10, decimals as nat) > u64::MAX,
        },
{
    if credits == 0 {
        return Some(0);
    }
    match whole_credit_units(decimals) {
        Some(unit) => credits.checked_mul(unit),
        None => {
            assert(credits * pow(10, decimals as nat) > u64::MAX) by (nonlinear_arith)
                requires
                    credits >= 1,
                    pow(10, decimals as nat) > u64::MAX,
            ;
            None
        },
    }
}

} // verus!
