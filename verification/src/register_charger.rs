//! The charger registry as a single entry point that is driven by a tagged
//! instruction: tag 0 creates a listing at the address derived from its
//! name, tag 1 changes a listing on behalf of its owner.
//!
//! The bytes after the tag, and the bytes stored in the charger's account,
//! are decoded by the caller; this module decides what becomes of them.

use crate::address::{charger_address, charger_seeds, found_bytes, program_address};
use crate::identity::Identity;
use vstd::prelude::*;

verus! {

/// A listing as this entry point stores it. The price is held as the bit
/// pattern of its decimal value in IEEE 754 binary64.
#[derive(Clone, Debug, PartialEq, Eq)]
pub struct Charger {
    pub owner: Identity,
    pub name: String,
    pub address: String,
    pub city: String,
    pub state: String,
    pub zip: String,
    pub description: String,
    pub charger_type: String,
    pub power: u64,
    pub price: u64,
    pub connector_types: String,
}

/// Why an instruction was rejected.
#[derive(Clone, Copy, Debug, PartialEq, Eq, Structural)]
pub enum ProgramFault {
    /// Fewer accounts were passed than the instruction reads.
    NotEnoughAccountKeys,
    /// The instruction has no tag, an unknown tag, or a body that does not
    /// decode.
    InvalidInstructionData,
    /// The charger's account is not at the address derived from the name,
    /// or what it stores does not decode.
    InvalidAccountData,
    /// The signer does not own the listing.
    IllegalOwner,
}

/// What an accepted instruction asks the caller to store.
#[derive(Clone, Debug, PartialEq, Eq)]
pub enum Processed {
    /// Create the charger's account, signing with the name and `bump_seed`,
    /// and store `charger` in it.
    Created { charger: Charger, bump_seed: u8 },
    /// Store `charger` in the charger's account.
    Updated { charger: Charger },
}

/// The tag of an instruction that creates a listing.
pub const CREATE: u8 = 0;

/// The tag of an instruction that changes a listing.
pub const UPDATE: u8 = 1;

/// The accounts that an instruction reads: the payer, the charger's account
/// and the system program.
pub const ACCOUNTS_READ: usize = 3;

/// `listing` with `owner` as its owner.
pub open spec fn owned_by(listing: Charger, owner: Identity) -> Charger {
    Charger { owner, ..listing }
}

/// What becomes of an instruction. `accounts` are the addresses of the
/// accounts passed, `input_data` the instruction's bytes, `submitted` the
/// listing decoded from the bytes after the tag, `stored` the listing
/// decoded from the charger's account (each `None` where the bytes do not
/// decode), and `address` the address derived from the submitted name, with
/// its bump seed.
pub open spec fn processed(
    accounts: Seq<Identity>,
    input_data: Seq<u8>,
    submitted: Option<Charger>,
    stored: Option<Charger>,
    address: Option<(Seq<u8>, u8)>,
) -> Result<Processed, ProgramFault> {
    if accounts.len() < ACCOUNTS_READ {
        Err(ProgramFault::NotEnoughAccountKeys)
    } else if input_data.len() == 0 {
        Err(ProgramFault::InvalidInstructionData)
    } else if input_data[0] == CREATE {
        match (submitted, address) {
            (None, _) => Err(ProgramFault::InvalidInstructionData),
            (Some(listing), Some((derived, bump_seed))) if derived == accounts[1]@ => Ok(
                Processed::Created { charger: owned_by(listing, accounts[0]), bump_seed },
            ),
            (Some(_), _) => Err(ProgramFault::InvalidAccountData),
        }
    } else if input_data[0] == UPDATE {
        match (stored, submitted) {
            (None, _) => Err(ProgramFault::InvalidAccountData),
            (Some(held), _) if held.owner != accounts[0] => Err(ProgramFault::IllegalOwner),
            (Some(_), None) => Err(ProgramFault::InvalidInstructionData),
            (Some(held), Some(listing)) => Ok(
                Processed::Updated { charger: owned_by(listing, held.owner) },
            ),
        }
    } else {
        Err(ProgramFault::InvalidInstructionData)
    }
}

/// The tag of an instruction and the bytes after it, which hold the
/// submitted listing. An instruction without bytes has neither.
pub fn split_instruction(input_data: &[u8]) -> (parts: Result<(u8, &[u8]), ProgramFault>)
    ensures
        match parts {
            Ok((tag, body)) => input_data@.len() > 0 && tag == input_data@[0] && body@
                == input_data@.subrange(1, input_data@.len() as int),
            Err(fault) => input_data@.len() == 0 && fault == ProgramFault::InvalidInstructionData,
        },
{
    if input_data.len() == 0 {
        return Err(ProgramFault::InvalidInstructionData);
    }
    Ok((input_data[0], vstd::slice::slice_subrange(input_data, 1, input_data.len())))
}

/// Decides an instruction, given the address `found` that was derived from
/// the submitted name.
pub fn execute_instruction(
    accounts: &[Identity],
    input_data: &[u8],
    submitted: Option<Charger>,
    stored: Option<Charger>,
    found: Option<(Identity, u8)>,
) -> (done: Result<Processed, ProgramFault>)
    ensures
        done == processed(accounts@, input_data@, submitted, stored, found_bytes(found)),
{
    if accounts.len() < ACCOUNTS_READ {
        return Err(ProgramFault::NotEnoughAccountKeys);
    }
    let payer = accounts[0];
    let charger_account = accounts[1];
    if input_data.len() == 0 {
        return Err(ProgramFault::InvalidInstructionData);
    }
    let instruction_type = input_data[0];
    if instruction_type == CREATE {
        let mut charger = match submitted {
            Some(listing) => listing,
            None => {
                return Err(ProgramFault::InvalidInstructionData);
            },
        };
        let bump_seed = match found {
            Some((pda, bump_seed)) => {
                proof {
                    Identity::lemma_same_bytes(pda, charger_account);
                }
                if pda != charger_account {
                    return Err(ProgramFault::InvalidAccountData);
                }
                bump_seed
            },
            None => {
                return Err(ProgramFault::InvalidAccountData);
            },
        };
        charger.owner = payer;
        Ok(Processed::Created { charger, bump_seed })
    } else if instruction_type == UPDATE {
        let mut charger = match stored {
            Some(held) => held,
            None => {
                return Err(ProgramFault::InvalidAccountData);
            },
        };
        if charger.owner != payer {
            return Err(ProgramFault::IllegalOwner);
        }
        let updated_charger = match submitted {
            Some(listing) => listing,
            None => {
                return Err(ProgramFault::InvalidInstructionData);
            },
        };
        charger.name = updated_charger.name;
        charger.address = updated_charger.address;
        charger.city = updated_charger.city;
        charger.state = updated_charger.state;
        charger.zip = updated_charger.zip;
        charger.description = updated_charger.description;
        charger.charger_type = updated_charger.charger_type;
        charger.power = updated_charger.power;
        charger.price = updated_charger.price;
        charger.connector_types = updated_charger.connector_types;
        Ok(Processed::Updated { charger })
    } else {
        Err(ProgramFault::InvalidInstructionData)
    }
}

/// The address that the program derives from the name of `submitted`.
pub open spec fn submitted_address(program_id: Identity, submitted: Option<Charger>) -> Option<
    (Seq<u8>, u8),
> {
    match submitted {
        Some(listing) => program_address(charger_seeds(listing.name@), program_id@),
        None => None,
    }
}

/// Decides an instruction to the program `program_id`.
///
/// A listing is created only in the account at the address that the program
/// derives from its name, and with the payer as its owner. A listing is
/// changed only for its owner, who stays its owner.
pub fn process_instruction(
    program_id: &Identity,
    accounts: &[Identity],
    input_data: &[u8],
    submitted: Option<Charger>,
    stored: Option<Charger>,
) -> (done: Result<Processed, ProgramFault>)
    ensures
        done == processed(
            accounts@,
            input_data@,
            submitted,
            stored,
            submitted_address(*program_id, submitted),
        ),
{
    let creating = input_data.len() > 0 && input_data[0] == CREATE;
    let found = match &submitted {
        Some(listing) => {
            if creating {
                charger_address(program_id, listing.name.as_str())
            } else {
                None
            }
        },
        None => None,
    };
    execute_instruction(accounts, input_data, submitted, stored, found)
}

} // verus!
