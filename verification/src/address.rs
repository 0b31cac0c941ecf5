//! Record addresses. Every record lives at the program-derived address of a
//! fixed list of seeds, so that a record can be found again from what it is
//! about, and a second record for the same subject collides with the first.

use crate::identity::Identity;
use solana_program::pubkey::Pubkey;
use vstd::bytes::{spec_u64_to_le_bytes, u64_to_le_bytes};
use vstd::prelude::*;
use vstd::slice::slice_to_vec;
use vstd::string::StringSliceAdditionalSpecFns;
use vstd::utf8::encode_utf8;

verus! {

/// The address and bump seed that the program `program_id` derives from
/// `seeds`, or `None` where it derives none.
pub uninterp spec fn program_address(seeds: Seq<Seq<u8>>, program_id: Seq<u8>) -> Option<
    (Seq<u8>, u8),
>;

/// More seeds than this, counting the bump seed, derive no address.
pub const MAX_SEEDS: usize = 16;

/// A seed longer than this derives no address.
pub const MAX_SEED_LEN: usize = 32;

/// The seeds as byte sequences.
pub open spec fn seed_bytes(seeds: Seq<Vec<u8>>) -> Seq<Seq<u8>> {
    seeds.map_values(|seed: Vec<u8>| seed@)
}

/// An address with its bump seed, the address as its bytes.
pub open spec fn found_bytes(found: Option<(Identity, u8)>) -> Option<(Seq<u8>, u8)> {
    match found {
        Some((address, bump)) => Some((address@, bump)),
        None => None,
    }
}

/// Whether `seeds` are too many or hold a seed that is too long.
pub open spec fn oversized(seeds: Seq<Seq<u8>>) -> bool {
    seeds.len() >= MAX_SEEDS || exists|i: int|
        0 <= i < seeds.len() && (#[trigger] seeds[i]).len() > MAX_SEED_LEN
}

/// Calls `solana_program::pubkey::Pubkey::try_find_program_address`.
///
/// Trusted: the call is a function of the seeds and the program id alone, and
/// `program_address` names what it returns. It finds nothing when there are
/// sixteen seeds or more, or when one seed is longer than 32 bytes.
#[verifier::external_body]
fn find_program_address(seeds: &Vec<Vec<u8>>, program_id: &Identity) -> (found: Option<
    (Identity, u8),
>)
    ensures
        program_address(seed_bytes(seeds@), program_id@) == found_bytes(found),
        oversized(seed_bytes(seeds@)) ==> found is None,
{
    let parts: Vec<&[u8]> = seeds.iter().map(|seed| seed.as_slice()).collect();
    let program = Pubkey::new_from_array(program_id.bytes);
    match Pubkey::try_find_program_address(&parts, &program) {
        Some((address, bump)) => Some((Identity { bytes: address.to_bytes() }, bump)),
        None => None,
    }
}

/// Whether `found` is what the program `program_id` derives from `seeds`.
pub open spec fn derived(
    seeds: Seq<Seq<u8>>,
    program_id: Identity,
    found: Option<(Identity, u8)>,
) -> bool {
    &&& program_address(seeds, program_id@) == found_bytes(found)
    &&& oversized(seeds) ==> found is None
}

/// Whether `address` is the address that the program `program_id` derives
/// from `seeds`.
pub open spec fn is_address(seeds: Seq<Seq<u8>>, program_id: Identity, address: Identity) -> bool {
    program_address(seeds, program_id@) matches Some((bytes, _)) && bytes == address@
}

/// Whether the program `program_id` derives no address from `seeds`.
pub open spec fn no_address(seeds: Seq<Seq<u8>>, program_id: Identity) -> bool {
    program_address(seeds, program_id@) is None
}

/// The seeds of a charger: its name in UTF-8.
pub open spec fn charger_seeds(name: Seq<char>) -> Seq<Seq<u8>> {
    seq![encode_utf8(name)]
}

/// The seeds of a user's account.
pub open spec fn user_seeds(authority: Identity) -> Seq<Seq<u8>> {
    seq!["user".spec_bytes(), authority@]
}

/// The seeds of the escrow of one session of a user at a charger.
pub open spec fn escrow_seeds(authority: Identity, charger: Identity, session_id: u64) -> Seq<
    Seq<u8>,
> {
    seq!["escrow".spec_bytes(), authority@, charger@, spec_u64_to_le_bytes(session_id)]
}

/// The seeds of the record of a session that a user began at `timestamp`.
pub open spec fn session_seeds(authority: Identity, timestamp: i64) -> Seq<Seq<u8>> {
    seq!["session".spec_bytes(), authority@, spec_u64_to_le_bytes(timestamp as u64)]
}

/// The seeds of the authority that mints reward credits.
pub open spec fn mint_authority_seeds() -> Seq<Seq<u8>> {
    seq!["mint-authority".spec_bytes()]
}

/// A seed made of the bytes of `text`.
fn text_seed(text: &str) -> (seed: Vec<u8>)
    ensures
        seed@ == text.spec_bytes(),
{
    slice_to_vec(text.as_bytes())
}

/// A seed made of the bytes of `id`.
fn identity_seed(id: &Identity) -> (seed: Vec<u8>)
    ensures
        seed@ == id@,
{
    slice_to_vec(id.bytes.as_slice())
}

/// The address of the charger called `name`, with its bump seed. A name of
/// more than 32 bytes has no address.
pub fn charger_address(program_id: &Identity, name: &str) -> (found: Option<(Identity, u8)>)
    ensures
        derived(charger_seeds(name@), *program_id, found),
        encode_utf8(name@).len() > MAX_SEED_LEN ==> found is None,
{
    let mut seeds: Vec<Vec<u8>> = Vec::new();
    seeds.push(text_seed(name));
    assert(seed_bytes(seeds@) =~= charger_seeds(name@));
    assert(charger_seeds(name@)[0] == encode_utf8(name@));
    find_program_address(&seeds, program_id)
}

/// The address of the account of the user `authority`, with its bump seed.
pub fn user_address(program_id: &Identity, authority: &Identity) -> (found: Option<(Identity, u8)>)
    ensures
        derived(user_seeds(*authority), *program_id, found),
{
    let mut seeds: Vec<Vec<u8>> = Vec::new();
    seeds.push(text_seed("user"));
    seeds.push(identity_seed(authority));
    assert(seed_bytes(seeds@) =~= user_seeds(*authority));
    find_program_address(&seeds, program_id)
}

/// The address of the escrow that `authority` funds at `charger` for the
/// session `session_id`, with its bump seed.
pub fn escrow_address(
    program_id: &Identity,
    authority: &Identity,
    charger: &Identity,
    session_id: u64,
) -> (found: Option<(Identity, u8)>)
    ensures
        derived(escrow_seeds(*authority, *charger, session_id), *program_id, found),
{
    let mut seeds: Vec<Vec<u8>> = Vec::new();
    seeds.push(text_seed("escrow"));
    seeds.push(identity_seed(authority));
    seeds.push(identity_seed(charger));
    seeds.push(u64_to_le_bytes(session_id));
    assert(seed_bytes(seeds@) =~= escrow_seeds(*authority, *charger, session_id));
    find_program_address(&seeds, program_id)
}

/// The address of the record of the session that `authority` began at
/// `timestamp`, with its bump seed.
pub fn session_address(program_id: &Identity, authority: &Identity, timestamp: i64) -> (found:
    Option<(Identity, u8)>)
    ensures
        derived(session_seeds(*authority, timestamp), *program_id, found),
{
    let mut seeds: Vec<Vec<u8>> = Vec::new();
    seeds.push(text_seed("session"));
    seeds.push(identity_seed(authority));
    seeds.push(u64_to_le_bytes(#[verifier::truncate] (timestamp as u64)));
    assert(seed_bytes(seeds@) =~= session_seeds(*authority, timestamp));
    find_program_address(&seeds, program_id)
}

/// The address of the authority that mints reward credits, with its bump seed.
pub fn mint_authority_address(program_id: &Identity) -> (found: Option<(Identity, u8)>)
    ensures
        derived(mint_authority_seeds(), *program_id, found),
{
    let mut seeds: Vec<Vec<u8>> = Vec::new();
    seeds.push(text_seed("mint-authority"));
    assert(seed_bytes(seeds@) =~= mint_authority_seeds());
    find_program_address(&seeds, program_id)
}

} // verus!
