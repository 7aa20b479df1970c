use vstd::prelude::*;
use vstd::string::StringSliceAdditionalSpecFns;

use crate::address::{Address, spec_parse_pubkey};
use crate::error::InstructionError;
use crate::pda::{find_program_address, seed_bytes, seeds_view, seeds_short_enough, spec_find_program_address};

verus! {

/// The token metadata program's address, as `mpl_token_metadata` declares it.
pub const TOKEN_METADATA_PROGRAM_ID: &'static str = "metaqbxxUerdq28cj1RbAWkYQm3ybzjb6a8bt518x1s";

/// The first seed of a metadata account's address (`mpl_token_metadata::state::PREFIX`).
pub const METADATA_SEED: &'static str = "metadata";

/// The discriminant of `TokenStandard::NonFungible` in `mpl_token_metadata`.
pub const NON_FUNGIBLE: u8 = 0;

/// The token metadata program's address.
pub open spec fn token_metadata_program() -> Seq<u8> {
    match spec_parse_pubkey(TOKEN_METADATA_PROGRAM_ID@) {
        Some(key) => key,
        None => Seq::empty(),
    }
}

/// The seeds from which the metadata account of `mint` is derived.
pub open spec fn metadata_seeds(program: Seq<u8>, mint: Seq<u8>) -> Seq<Seq<u8>> {
    seq![METADATA_SEED.spec_bytes(), program, mint]
}

/// The metadata seeds of `mint` under the token metadata program, as vectors;
/// they are few and short enough for an address derivation.
pub fn make_metadata_seeds(metadata_program: &Address, mint: &Address) -> (r: Vec<Vec<u8>>)
    ensures
        seeds_view(r@) == metadata_seeds(metadata_program@, mint@),
        r@.len() == 3,
        seeds_short_enough(seeds_view(r@)),
{
    proof {
        reveal_strlit("metadata");
        broadcast use vstd::string::is_ascii_spec_bytes;
        assert(vstd::string::is_ascii(METADATA_SEED));
    }
    let r = vec![seed_bytes(METADATA_SEED), metadata_program.to_vec(), mint.to_vec()];
    assert(seeds_view(r@) =~= metadata_seeds(metadata_program@, mint@));
    r
}

/// Calls `mpl_token_metadata::id()`. Claimed: it is the key that
/// `Pubkey::from_str` decodes from the text that the crate's `declare_id!`
/// names, the same text as `TOKEN_METADATA_PROGRAM_ID`.
#[verifier::external_body]
pub(crate) fn token_metadata_program_id() -> (r: Address)
    ensures
        spec_parse_pubkey(TOKEN_METADATA_PROGRAM_ID@) == Some(r@),
{
    Address { bytes: mpl_token_metadata::id().to_bytes() }
}

/// The bump seed with which `seeds` derive `account` under `program_id`, or
/// `None` where the derived address is another one.
pub open spec fn derived_bump(program_id: Seq<u8>, account: Seq<u8>, seeds: Seq<Seq<u8>>) -> Option<u8> {
    match spec_find_program_address(seeds, program_id) {
        Some(found) => if found.0 == account { Some(found.1) } else { None },
        None => None,
    }
}

/// Calls `mpl_token_metadata::utils::assert_derivation`, which (in
/// `mpl_utils`) runs `Pubkey::find_program_address` on the seeds and compares
/// the address found with the account's key. That search panics where it
/// finds nothing, so the call asks for an address to exist. Claimed: the
/// result is the bump seed of the address found where it is the account's,
/// and `None` (the `DerivedKeyInvalid` error) where it is another.
#[verifier::external_body]
pub(crate) fn assert_derivation(program_id: &Address, account: &Address, seeds: &Vec<Vec<u8>>) -> (r: Option<u8>)
    requires
        spec_find_program_address(seeds_view(seeds@), program_id@) is Some,
    ensures
        r == derived_bump(program_id@, account@, seeds_view(seeds@)),
{
    let key = solana_program::pubkey::Pubkey::new_from_array(account.bytes);
    let (mut lamports, mut data) = (0u64, [0u8; 0]);
    let info = solana_program::account_info::AccountInfo::new(&key, false, false, &mut lamports, &mut data, &key, false, 0);
    let parts: Vec<&[u8]> = seeds.iter().map(|s| s.as_slice()).collect();
    let program = solana_program::pubkey::Pubkey::new_from_array(program_id.bytes);
    mpl_token_metadata::utils::assert_derivation(&program, &info, &parts).ok()
}

/// The outcome of checking that `account` is the metadata account of `mint`:
/// the address search on the metadata seeds finds nothing (`NoViableBump`;
/// the search panics there), finds another address (`DerivedKeyInvalid`),
/// or finds `account`.
pub open spec fn metadata_derivation_outcome(account: Seq<u8>, mint: Seq<u8>) -> Result<(), InstructionError> {
    match spec_find_program_address(metadata_seeds(token_metadata_program(), mint), token_metadata_program()) {
        None => Err(InstructionError::NoViableBump),
        Some(found) => if found.0 == account {
            Ok(())
        } else {
            Err(InstructionError::DerivedKeyInvalid)
        },
    }
}

/// Checks that `account` is the metadata account of `mint` (see
/// `metadata_derivation_outcome`).
pub fn check_metadata_derivation(metadata_program: &Address, account: &Address, mint: &Address) -> (r: Result<(), InstructionError>)
    requires
        metadata_program@ == token_metadata_program(),
    ensures
        r == metadata_derivation_outcome(account@, mint@),
{
    let seeds = make_metadata_seeds(metadata_program, mint);
    if find_program_address(&seeds, metadata_program).is_none() {
        return Err(InstructionError::NoViableBump);
    }
    match assert_derivation(metadata_program, account, &seeds) {
        Some(_) => Ok(()),
        None => Err(InstructionError::DerivedKeyInvalid),
    }
}

/// A creator listed in a token's metadata.
#[derive(Clone, Copy, Debug)]
pub struct Creator {
    pub address: Address,
    pub verified: bool,
}

/// The collection a token's metadata names.
#[derive(Clone, Copy, Debug)]
pub struct Collection {
    pub verified: bool,
    pub key: Address,
}

/// The fields of a token's metadata (`mpl_token_metadata::state::Metadata`)
/// that the program reads.
#[derive(Debug)]
pub struct Metadata {
    pub mint: Address,
    pub primary_sale_happened: bool,
    /// The discriminant of the metadata's `TokenStandard`, when it has one.
    pub token_standard: Option<u8>,
    pub seller_fee_basis_points: u16,
    pub creators: Option<Vec<Creator>>,
    pub collection: Option<Collection>,
}

pub struct CreatorView {
    pub address: Seq<u8>,
    pub verified: bool,
}

pub struct CollectionView {
    pub verified: bool,
    pub key: Seq<u8>,
}

pub struct MetadataView {
    pub mint: Seq<u8>,
    pub primary_sale_happened: bool,
    pub token_standard: Option<u8>,
    pub seller_fee_basis_points: u16,
    pub creators: Option<Seq<CreatorView>>,
    pub collection: Option<CollectionView>,
}

impl View for Creator {
    type V = CreatorView;

    open spec fn view(&self) -> CreatorView {
        CreatorView { address: self.address@, verified: self.verified }
    }
}

impl View for Collection {
    type V = CollectionView;

    open spec fn view(&self) -> CollectionView {
        CollectionView { verified: self.verified, key: self.key@ }
    }
}

impl View for Metadata {
    type V = MetadataView;

    open spec fn view(&self) -> MetadataView {
        MetadataView {
            mint: self.mint@,
            primary_sale_happened: self.primary_sale_happened,
            token_standard: self.token_standard,
            seller_fee_basis_points: self.seller_fee_basis_points,
            creators: match self.creators {
                Some(cs) => Some(cs@.map_values(|c: Creator| c@)),
                None => None,
            },
            collection: match self.collection {
                Some(c) => Some(c@),
                None => None,
            },
        }
    }
}

/// What `mpl_token_metadata`'s `Metadata::deserialize` reads from account
/// data, or `None` where it returns an error.
pub uninterp spec fn spec_deserialize_metadata(data: Seq<u8>) -> Option<MetadataView>;

/// Calls `mpl_token_metadata::state::Metadata::deserialize` (borsh) on the
/// account data and keeps the fields the program reads. Claimed: the result
/// is the named one, `None` where the outside function returns an error.
#[verifier::external_body]
pub(crate) fn deserialize_metadata(data: &[u8]) -> (r: Option<Metadata>)
    ensures
        match r {
            Some(m) => spec_deserialize_metadata(data@) == Some(m@),
            None => spec_deserialize_metadata(data@) is None,
        },
{
    let md = <mpl_token_metadata::state::Metadata as anchor_lang::AnchorDeserialize>::deserialize(&mut &data[..]).ok()?;
    let key = |k: solana_program::pubkey::Pubkey| Address { bytes: k.to_bytes() };
    Some(Metadata {
        mint: key(md.mint),
        primary_sale_happened: md.primary_sale_happened,
        token_standard: md.token_standard.map(|t| t as u8),
        seller_fee_basis_points: md.data.seller_fee_basis_points,
        creators: md.data.creators.map(|cs| cs.iter().map(|c| Creator { address: key(c.address), verified: c.verified }).collect()),
        collection: md.collection.map(|c| Collection { verified: c.verified, key: key(c.key) }),
    })
}

} // verus!
