use vstd::prelude::*;
use vstd::string::StringSliceAdditionalSpecFns;

use crate::address::{Address, spec_parse_pubkey};

verus! {

/// The seeds of an address derivation, each seed as a byte sequence.
pub open spec fn seeds_view(seeds: Seq<Vec<u8>>) -> Seq<Seq<u8>> {
    seeds.map_values(|s: Vec<u8>| s@)
}

/// The bytes of a text, as used for a seed.
pub fn seed_bytes(text: &str) -> (r: Vec<u8>)
    ensures
        r@ == text.spec_bytes(),
{
    let b = text.as_bytes();
    let mut v: Vec<u8> = Vec::new();
    let mut i: usize = 0;
    while i < b.len()
        invariant
            i <= b@.len(),
            v@ == b@.subrange(0, i as int),
        decreases b@.len() - i,
    {
        v.push(b[i]);
        i = i + 1;
    }
    assert(v@ =~= b@);
    v
}

/// What `solana_program`'s `Pubkey::try_find_program_address` returns for
/// these seeds and program: the derived address and its bump seed, or `None`.
pub uninterp spec fn spec_find_program_address(seeds: Seq<Seq<u8>>, program_id: Seq<u8>) -> Option<(Seq<u8>, u8)>;

/// What `solana_program`'s `Pubkey::create_program_address` returns for
/// these seeds and program: the derived address, or `None` for an error.
pub uninterp spec fn spec_create_program_address(seeds: Seq<Seq<u8>>, program_id: Seq<u8>) -> Option<Seq<u8>>;

/// Whether every seed is at most 32 bytes long (`MAX_SEED_LEN` of `solana_program`).
pub open spec fn seeds_short_enough(seeds: Seq<Seq<u8>>) -> bool {
    forall|i: int| 0 <= i < seeds.len() ==> #[trigger] seeds[i].len() <= 32
}

/// Calls `solana_program::pubkey::Pubkey::try_find_program_address`, the
/// search behind `Pubkey::find_program_address` (which panics where this
/// returns `None`). Claimed: the result is the named one; and, as its source
/// shows (it appends a one-byte bump seed and stops at the first
/// `MaxSeedLengthExceeded` of `create_program_address`), it finds nothing
/// unless there are at most 15 seeds, each at most 32 bytes long; and what it
/// finds is what `create_program_address` gives for the seeds followed by the
/// bump seed found (it returns that call's `Ok` address).
#[verifier::external_body]
pub(crate) fn find_program_address(seeds: &Vec<Vec<u8>>, program_id: &Address) -> (r: Option<(Address, u8)>)
    ensures
        match r {
            Some(found) => spec_find_program_address(seeds_view(seeds@), program_id@) == Some((found.0@, found.1)),
            None => spec_find_program_address(seeds_view(seeds@), program_id@) is None,
        },
        r is Some ==> seeds@.len() < 16 && seeds_short_enough(seeds_view(seeds@)),
        r matches Some(found) ==> spec_create_program_address(seeds_view(seeds@).push(seq![found.1]), program_id@)
            == Some(found.0@),
{
    let parts: Vec<&[u8]> = seeds.iter().map(|s| s.as_slice()).collect();
    let program = solana_program::pubkey::Pubkey::new_from_array(program_id.bytes);
    solana_program::pubkey::Pubkey::try_find_program_address(&parts, &program)
        .map(|(key, bump)| (Address { bytes: key.to_bytes() }, bump))
}

/// Calls `solana_program::pubkey::Pubkey::create_program_address`. Claimed:
/// the result is the named one (`None` for any error); and, as its source
/// shows, it is an error where there are more than 16 seeds or a seed is
/// longer than 32 bytes.
#[verifier::external_body]
pub(crate) fn create_program_address(seeds: &Vec<Vec<u8>>, program_id: &Address) -> (r: Option<Address>)
    ensures
        match r {
            Some(a) => spec_create_program_address(seeds_view(seeds@), program_id@) == Some(a@),
            None => spec_create_program_address(seeds_view(seeds@), program_id@) is None,
        },
        r is Some ==> seeds@.len() <= 16 && seeds_short_enough(seeds_view(seeds@)),
{
    let parts: Vec<&[u8]> = seeds.iter().map(|s| s.as_slice()).collect();
    let program = solana_program::pubkey::Pubkey::new_from_array(program_id.bytes);
    solana_program::pubkey::Pubkey::create_program_address(&parts, &program)
        .ok()
        .map(|key| Address { bytes: key.to_bytes() })
}

/// The token program's address, as `spl_token` declares it.
pub const TOKEN_PROGRAM_ID: &'static str = "TokenkegQfeZyiNwAJbNbGKPFXCWuBvf9Ss623VQ5DA";

/// The associated token account program's address, as
/// `spl_associated_token_account` declares it.
pub const ASSOCIATED_TOKEN_PROGRAM_ID: &'static str = "ATokenGPvbdGVxr1b2hvZbsiqW5xWH25efTNsLJA8knL";

/// The token program's address.
pub open spec fn token_program() -> Seq<u8> {
    match spec_parse_pubkey(TOKEN_PROGRAM_ID@) {
        Some(key) => key,
        None => Seq::empty(),
    }
}

/// The associated token account program's address.
pub open spec fn associated_token_program() -> Seq<u8> {
    match spec_parse_pubkey(ASSOCIATED_TOKEN_PROGRAM_ID@) {
        Some(key) => key,
        None => Seq::empty(),
    }
}

/// Calls `spl_token::id()`. Claimed: it is the key that `Pubkey::from_str`
/// decodes from the text the crate's `declare_id!` names, the same text as
/// `TOKEN_PROGRAM_ID`.
#[verifier::external_body]
pub(crate) fn token_program_id() -> (r: Address)
    ensures
        spec_parse_pubkey(TOKEN_PROGRAM_ID@) == Some(r@),
{
    Address { bytes: spl_token::id().to_bytes() }
}

/// Calls `spl_associated_token_account::id()`. Claimed: it is the key that
/// `Pubkey::from_str` decodes from the text the crate's `declare_id!` names,
/// the same text as `ASSOCIATED_TOKEN_PROGRAM_ID`.
#[verifier::external_body]
pub(crate) fn associated_token_program_id() -> (r: Address)
    ensures
        spec_parse_pubkey(ASSOCIATED_TOKEN_PROGRAM_ID@) == Some(r@),
{
    Address { bytes: spl_associated_token_account::id().to_bytes() }
}

/// The seeds of the associated token account of `wallet` for `mint`: the
/// wallet, the token program and the mint.
pub open spec fn associated_token_seeds(wallet: Seq<u8>, mint: Seq<u8>) -> Seq<Seq<u8>> {
    seq![wallet, token_program(), mint]
}

/// The seeds of the associated token account of `wallet` for `mint`, as
/// vectors; they are few and short enough for an address derivation.
pub fn make_associated_token_seeds(wallet: &Address, mint: &Address) -> (r: Vec<Vec<u8>>)
    ensures
        seeds_view(r@) == associated_token_seeds(wallet@, mint@),
        r@.len() == 3,
        seeds_short_enough(seeds_view(r@)),
{
    let token_program = token_program_id();
    let r = vec![wallet.to_vec(), token_program.to_vec(), mint.to_vec()];
    assert(seeds_view(r@) =~= associated_token_seeds(wallet@, mint@));
    r
}

/// Calls `spl_associated_token_account::get_associated_token_address`,
/// which (through `get_associated_token_address_and_bump_seed_internal`)
/// runs `Pubkey::find_program_address` on the wallet, the token program and
/// the mint under the associated token account program, and keeps the
/// address. That search panics where it finds nothing, so the call asks for
/// an address to exist. Claimed: the result is the address found.
#[verifier::external_body]
pub(crate) fn associated_token_address(wallet: &Address, mint: &Address) -> (r: Address)
    requires
        spec_find_program_address(associated_token_seeds(wallet@, mint@), associated_token_program()) is Some,
    ensures
        match spec_find_program_address(associated_token_seeds(wallet@, mint@), associated_token_program()) {
            Some(found) => r@ == found.0,
            None => false,
        },
{
    let key = spl_associated_token_account::get_associated_token_address(
        &solana_program::pubkey::Pubkey::new_from_array(wallet.bytes),
        &solana_program::pubkey::Pubkey::new_from_array(mint.bytes),
    );
    Address { bytes: key.to_bytes() }
}

} // verus!
