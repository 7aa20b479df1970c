use vstd::prelude::*;
use vstd::string::StringSliceAdditionalSpecFns;

use crate::address::{Address, parse_pubkey, spec_parse_pubkey};
use crate::pda::{seed_bytes, seeds_view};

verus! {

/// The state of one liquifier, held in the account derived from
/// `LIQUIFIER_SEED`, the token mint and the collection mint.
#[derive(Clone, Copy, Debug)]
pub struct Liquifier {
    /// Bump seed of the liquifier account's address.
    pub bump: u8,
    /// The liquifier account's address.
    pub liquifier_id: Address,
    /// Maximum number of tokens this liquifier can hand out.
    pub max_tokens_liquified: u128,
    /// Total number of tokens sent to the treasury.
    pub liquifier_treasury_token_amount: u128,
    /// Size of the NFT collection.
    pub collection_size: u64,
    /// Number of NFTs counted as liquified.
    pub liquified_nfts_count: u64,
    /// Number of tokens exchanged for one NFT.
    pub liquification_threshold: u64,
    /// Mint of the fungible token.
    pub liquifier_token_mint: Address,
    /// Treasury token account, owned by the liquifier account.
    pub liquifier_treasury_token_account: Address,
    /// Mint of the NFT collection.
    pub liquifier_collection_mint: Address,
}

impl Default for Liquifier {
    fn default() -> (r: Liquifier)
        ensures
            r.bump == 0,
            r.liquifier_id@ == Seq::new(32, |i: int| 0u8),
            r.max_tokens_liquified == 0,
            r.liquifier_treasury_token_amount == 0,
            r.collection_size == 0,
            r.liquified_nfts_count == 0,
            r.liquification_threshold == 0,
            r.liquifier_token_mint@ == Seq::new(32, |i: int| 0u8),
            r.liquifier_treasury_token_account@ == Seq::new(32, |i: int| 0u8),
            r.liquifier_collection_mint@ == Seq::new(32, |i: int| 0u8),
    {
        Liquifier {
            bump: 0,
            liquifier_id: Address::zero(),
            max_tokens_liquified: 0,
            liquifier_treasury_token_amount: 0,
            collection_size: 0,
            liquified_nfts_count: 0,
            liquification_threshold: 0,
            liquifier_token_mint: Address::zero(),
            liquifier_treasury_token_account: Address::zero(),
            liquifier_collection_mint: Address::zero(),
        }
    }
}

/// Tokens handed out per NFT of the collection.
pub const OCUL_PER_SOLOCCULT: usize = 1_000_000_000;

/// Number of NFTs in the collection.
pub const SOLOCCULT_COLLECTION_SIZE: usize = 10_000;

/// The only token mint a liquifier accepts.
pub const TOKEN_MINT_ADDRESS: &'static str = "oc1sWand58xiimhsdvH547u8arUe3gbgmCT3w9fcLxt";

/// The only collection mint a liquifier accepts.
pub const COLLECTION_MINT_ADDRESS: &'static str = "DF38t9y7iwsUtRAnz331HLxDGWd5onbrS8qoMPyUzJwS";

/// The collection's update authority, also its verified creator (the
/// candy machine that minted it).
pub const COLLECTION_AUTHORITY_ADDRESS: &'static str = "SALThRKa8JFD3XoGbLshzg61kaBHFFCeggDH8ydNEaE";

/// First seed of the liquifier account's address.
pub const LIQUIFIER_SEED: &'static str = "liquifier";

/// First seed of the address of the account in which the liquifier holds an NFT.
pub const LIQUIFIED_NFT_ACCOUNT_SEED: &'static str = "mint_to_be_liquified_liquifier_account";

/// Whether `key` is the address that `text` spells in base58.
pub open spec fn is_address(text: Seq<char>, key: Seq<u8>) -> bool {
    spec_parse_pubkey(text) == Some(key)
}

/// Whether `pubkey` is the address that `text` spells. The text is decoded
/// with `Pubkey::from_str`; a text it refuses matches no address (the texts
/// this module names all decode).
fn matches_address_text(pubkey: &Address, text: &str) -> (r: bool)
    ensures
        r == is_address(text@, pubkey@),
        r ==> forall|other: Seq<char>| #[trigger] spec_parse_pubkey(other) == Some(pubkey@) ==> other == text@,
{
    match parse_pubkey(text) {
        Some(expected) => pubkey.same_as(&expected),
        None => false,
    }
}

/// Whether `pubkey` is the token mint a liquifier accepts.
/// No key is both the token mint and the collection mint.
pub fn assert_token_mint_address(pubkey: &Address) -> (r: bool)
    ensures
        r == is_address(TOKEN_MINT_ADDRESS@, pubkey@),
        r ==> !is_address(COLLECTION_MINT_ADDRESS@, pubkey@),
{
    let r = matches_address_text(pubkey, TOKEN_MINT_ADDRESS);
    proof {
        lemma_mint_texts_differ();
    }
    r
}

/// Whether `pubkey` is the collection mint a liquifier accepts.
/// No key is both the collection mint and the token mint.
pub fn assert_collection_mint_address(pubkey: &Address) -> (r: bool)
    ensures
        r == is_address(COLLECTION_MINT_ADDRESS@, pubkey@),
        r ==> !is_address(TOKEN_MINT_ADDRESS@, pubkey@),
{
    let r = matches_address_text(pubkey, COLLECTION_MINT_ADDRESS);
    proof {
        lemma_mint_texts_differ();
    }
    r
}

/// Whether `pubkey` is the collection mint's update authority.
pub fn assert_collection_mint_update_authority(pubkey: &Address) -> (r: bool)
    ensures
        r == is_address(COLLECTION_AUTHORITY_ADDRESS@, pubkey@),
{
    matches_address_text(pubkey, COLLECTION_AUTHORITY_ADDRESS)
}

/// Whether `pubkey` is the creator the collection mint's metadata must list as verified.
pub fn assert_collection_mint_verified_creator(pubkey: &Address) -> (r: bool)
    ensures
        r == is_address(COLLECTION_AUTHORITY_ADDRESS@, pubkey@),
{
    matches_address_text(pubkey, COLLECTION_AUTHORITY_ADDRESS)
}

/// Whether `pubkey` is the verified creator of the collection's NFTs.
pub fn assert_mint_to_be_liquified_verified_creator(pubkey: &Address) -> (r: bool)
    ensures
        r == is_address(COLLECTION_AUTHORITY_ADDRESS@, pubkey@),
{
    matches_address_text(pubkey, COLLECTION_AUTHORITY_ADDRESS)
}

/// Whether `pubkey` is the update authority of the collection's NFTs.
pub fn assert_mint_to_be_liquified_update_authority(pubkey: &Address) -> (r: bool)
    ensures
        r == is_address(COLLECTION_AUTHORITY_ADDRESS@, pubkey@),
{
    matches_address_text(pubkey, COLLECTION_AUTHORITY_ADDRESS)
}

/// The seeds of a liquifier account's address.
pub open spec fn liquifier_seeds(token_mint: Seq<u8>, collection_mint: Seq<u8>) -> Seq<Seq<u8>> {
    seq![LIQUIFIER_SEED.spec_bytes(), token_mint, collection_mint]
}

/// The seeds of the account in which `liquifier` holds an NFT of `mint`.
pub open spec fn liquified_nft_account_seeds(liquifier: Seq<u8>, mint: Seq<u8>) -> Seq<Seq<u8>> {
    seq![LIQUIFIED_NFT_ACCOUNT_SEED.spec_bytes(), liquifier, mint]
}

pub fn make_liquifier_seeds(token_mint: &Address, collection_mint: &Address) -> (r: Vec<Vec<u8>>)
    ensures
        seeds_view(r@) == liquifier_seeds(token_mint@, collection_mint@),
{
    let r = vec![seed_bytes(LIQUIFIER_SEED), token_mint.to_vec(), collection_mint.to_vec()];
    assert(seeds_view(r@) =~= liquifier_seeds(token_mint@, collection_mint@));
    r
}

pub fn make_liquified_nft_account_seeds(liquifier: &Address, mint: &Address) -> (r: Vec<Vec<u8>>)
    ensures
        seeds_view(r@) == liquified_nft_account_seeds(liquifier@, mint@),
{
    let r = vec![seed_bytes(LIQUIFIED_NFT_ACCOUNT_SEED), liquifier.to_vec(), mint.to_vec()];
    assert(seeds_view(r@) =~= liquified_nft_account_seeds(liquifier@, mint@));
    r
}

/// `seeds` followed by the one-byte seed `bump`.
pub fn with_bump(seeds: Vec<Vec<u8>>, bump: u8) -> (r: Vec<Vec<u8>>)
    ensures
        seeds_view(r@) == seeds_view(seeds@).push(seq![bump]),
{
    let mut r = seeds;
    let b: Vec<u8> = vec![bump];
    assert(b@ =~= seq![bump]);
    let ghost old_r = r@;
    r.push(b);
    assert(r@ == old_r.push(b));
    assert(seeds_view(r@) =~= seeds_view(seeds@).push(seq![bump]));
    r
}

} // verus!

verus! {

/// The token mint's text and the collection mint's text differ.
proof fn lemma_mint_texts_differ()
    ensures
        TOKEN_MINT_ADDRESS@ != COLLECTION_MINT_ADDRESS@,
{
    reveal_strlit("oc1sWand58xiimhsdvH547u8arUe3gbgmCT3w9fcLxt");
    reveal_strlit("DF38t9y7iwsUtRAnz331HLxDGWd5onbrS8qoMPyUzJwS");
    assert(TOKEN_MINT_ADDRESS@[0] != COLLECTION_MINT_ADDRESS@[0]);
}

/// `LIQUIFIED_NFT_ACCOUNT_SEED` is 38 bytes long, more than the 32 bytes an
/// address-derivation seed may have.
pub proof fn lemma_liquified_nft_account_seed_too_long()
    ensures
        LIQUIFIED_NFT_ACCOUNT_SEED.spec_bytes().len() == 38,
{
    reveal_strlit("mint_to_be_liquified_liquifier_account");
    broadcast use vstd::string::is_ascii_spec_bytes;
    assert(vstd::string::is_ascii(LIQUIFIED_NFT_ACCOUNT_SEED));
}

} // verus!
