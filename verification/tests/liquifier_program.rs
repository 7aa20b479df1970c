use std::str::FromStr;

use anchor_lang::AnchorSerialize;
use solana_program::pubkey::Pubkey;

use liquifier::accounts::{LiquifierAccount, MetadataAccount, TokenAccount};
use liquifier::action::Action;
use liquifier::address::Address;
use liquifier::error::{InstructionError, LiquifierError};
use liquifier::instructions::create_liquifier::{self, CreateLiquifier, CreateLiquifierArgs};
use liquifier::instructions::deliquify::{self, Deliquify};
use liquifier::instructions::liquify::{self, Liquify};
use liquifier::instructions::turnon_liquifier::{self, TurnonLiquifier, TurnonLiquifierArgs};
use liquifier::liquifier::{create_liquifier, deliquify, liquify, turnon_liquifier};
use liquifier::instructions::create_liquifier::check_collection_metadata;
use liquifier::instructions::liquify::check_nft_metadata;
use liquifier::metadata::{Collection, Creator};
use liquifier::state::{
    assert_collection_mint_address, assert_collection_mint_update_authority,
    assert_collection_mint_verified_creator, assert_mint_to_be_liquified_update_authority,
    assert_mint_to_be_liquified_verified_creator, assert_token_mint_address, Liquifier,
    COLLECTION_AUTHORITY_ADDRESS, COLLECTION_MINT_ADDRESS, OCUL_PER_SOLOCCULT,
    SOLOCCULT_COLLECTION_SIZE, TOKEN_MINT_ADDRESS,
};

const PROGRAM_ID: &str = "4gHkd41joA4RyNuFY9UYYUbsBwAgjTomRoZFJjLwd5ht";

fn pk(text: &str) -> Pubkey {
    Pubkey::from_str(text).unwrap()
}

fn addr(key: Pubkey) -> Address {
    Address { bytes: key.to_bytes() }
}

fn other(n: u8) -> Address {
    Address { bytes: [n; 32] }
}

fn same(a: &Address, b: &Address) -> bool {
    a.bytes == b.bytes
}

fn metadata_program() -> Pubkey {
    mpl_token_metadata::id()
}

fn metadata_key(mint: &Pubkey) -> Pubkey {
    let program = metadata_program();
    Pubkey::find_program_address(&[b"metadata", program.as_ref(), mint.as_ref()], &program).0
}

fn liquifier_pda(program: &Pubkey) -> (Pubkey, u8) {
    Pubkey::find_program_address(
        &[b"liquifier", pk(TOKEN_MINT_ADDRESS).as_ref(), pk(COLLECTION_MINT_ADDRESS).as_ref()],
        program,
    )
}

struct MetadataFields {
    mint: Pubkey,
    primary_sale_happened: bool,
    token_standard: Option<mpl_token_metadata::state::TokenStandard>,
    seller_fee_basis_points: u16,
    creators: Option<Vec<mpl_token_metadata::state::Creator>>,
    collection: Option<mpl_token_metadata::state::Collection>,
}

fn collection_fields() -> MetadataFields {
    MetadataFields {
        mint: pk(COLLECTION_MINT_ADDRESS),
        primary_sale_happened: false,
        token_standard: Some(mpl_token_metadata::state::TokenStandard::NonFungible),
        seller_fee_basis_points: 0,
        creators: Some(vec![mpl_token_metadata::state::Creator {
            address: pk(COLLECTION_AUTHORITY_ADDRESS),
            verified: true,
            share: 100,
        }]),
        collection: None,
    }
}

fn metadata_bytes(f: MetadataFields) -> Vec<u8> {
    let md = mpl_token_metadata::state::Metadata {
        key: mpl_token_metadata::state::Key::MetadataV1,
        update_authority: pk(COLLECTION_AUTHORITY_ADDRESS),
        mint: f.mint,
        data: mpl_token_metadata::state::Data {
            name: "SolOccult".to_string(),
            symbol: "SOCC".to_string(),
            uri: "https://example.invalid/x.json".to_string(),
            seller_fee_basis_points: f.seller_fee_basis_points,
            creators: f.creators,
        },
        primary_sale_happened: f.primary_sale_happened,
        is_mutable: true,
        edition_nonce: None,
        token_standard: f.token_standard,
        collection: f.collection,
        uses: None,
        collection_details: None,
        programmable_config: None,
    };
    md.try_to_vec().unwrap()
}

fn metadata_account(mint: &Pubkey, data: Vec<u8>) -> MetadataAccount {
    MetadataAccount { key: addr(metadata_key(mint)), owner: addr(metadata_program()), data }
}

fn create_ctx() -> CreateLiquifier {
    let program = pk(PROGRAM_ID);
    let (liquifier, _) = liquifier_pda(&program);
    let token_mint = pk(TOKEN_MINT_ADDRESS);
    let collection_mint = pk(COLLECTION_MINT_ADDRESS);
    let treasury = spl_associated_token_account::get_associated_token_address(&liquifier, &token_mint);
    CreateLiquifier {
        liquifier: LiquifierAccount { key: addr(liquifier), data: Liquifier::default() },
        admin: other(7),
        admin_signed: true,
        liquifier_treasury_token_account: addr(treasury),
        liquifier_token_mint: addr(token_mint),
        liquifier_collection_mint: addr(collection_mint),
        liquifier_collection_mint_metadata: metadata_account(&collection_mint, metadata_bytes(collection_fields())),
        token_metadata_program: addr(metadata_program()),
    }
}

fn create_args() -> CreateLiquifierArgs {
    CreateLiquifierArgs {
        decimals: 0,
        collection_size: SOLOCCULT_COLLECTION_SIZE as u64,
        liquification_threshold: OCUL_PER_SOLOCCULT as u64,
    }
}

fn created_state() -> Liquifier {
    let mut ctx = create_ctx();
    create_liquifier(&addr(pk(PROGRAM_ID)), &mut ctx, create_args()).unwrap();
    ctx.liquifier.data
}

fn turnon_ctx(state: Liquifier) -> TurnonLiquifier {
    let program = pk(PROGRAM_ID);
    let (liquifier, _) = liquifier_pda(&program);
    TurnonLiquifier {
        liquifier: LiquifierAccount { key: addr(liquifier), data: state },
        liquifier_treasury_token_account: TokenAccount {
            key: state.liquifier_treasury_token_account,
            mint: state.liquifier_token_mint,
            owner: addr(liquifier),
        },
        admin: other(7),
        admin_signed: true,
        liquifier_token_mint: state.liquifier_token_mint,
        liquifier_collection_mint: state.liquifier_collection_mint,
        liquifier_token_mint_metadata: addr(metadata_key(&pk(TOKEN_MINT_ADDRESS))),
        liquifier_collection_mint_metadata: addr(metadata_key(&pk(COLLECTION_MINT_ADDRESS))),
        token_metadata_program: addr(metadata_program()),
    }
}

fn turnon_args() -> TurnonLiquifierArgs {
    TurnonLiquifierArgs {
        name: "Ocul".to_string(),
        symbol: "OCUL".to_string(),
        uri: "https://example.invalid/ocul.json".to_string(),
        collection_size: SOLOCCULT_COLLECTION_SIZE as u64,
        liquification_threshold: OCUL_PER_SOLOCCULT as u64,
    }
}

fn nft_mint() -> Pubkey {
    Pubkey::new_from_array([42; 32])
}

fn nft_fields(collection: Option<mpl_token_metadata::state::Collection>) -> MetadataFields {
    MetadataFields {
        mint: nft_mint(),
        primary_sale_happened: true,
        token_standard: Some(mpl_token_metadata::state::TokenStandard::NonFungible),
        seller_fee_basis_points: 500,
        creators: None,
        collection,
    }
}

fn verified_collection() -> Option<mpl_token_metadata::state::Collection> {
    Some(mpl_token_metadata::state::Collection { verified: true, key: pk(COLLECTION_MINT_ADDRESS) })
}

fn liquify_ctx(state: Liquifier, nft_metadata: Vec<u8>) -> Liquify {
    let (liquifier, _) = liquifier_pda(&pk(PROGRAM_ID));
    let user = other(9);
    let token_mint = pk(TOKEN_MINT_ADDRESS);
    let collection_mint = pk(COLLECTION_MINT_ADDRESS);
    Liquify {
        liquifier: LiquifierAccount { key: addr(liquifier), data: state },
        liquifier_treasury_token_account: TokenAccount {
            key: state.liquifier_treasury_token_account,
            mint: addr(token_mint),
            owner: addr(liquifier),
        },
        user_token_account: TokenAccount { key: other(10), mint: addr(token_mint), owner: user },
        user,
        user_signed: true,
        liquifier_token_mint: addr(token_mint),
        liquifier_collection_mint: addr(collection_mint),
        liquifier_token_mint_metadata: metadata_account(&token_mint, vec![4, 1, 2]),
        liquifier_collection_mint_metadata: metadata_account(&collection_mint, metadata_bytes(collection_fields())),
        mint_to_be_liquified: addr(nft_mint()),
        mint_to_be_liquified_user_account: TokenAccount { key: other(11), mint: addr(nft_mint()), owner: user },
        mint_to_be_liquified_liquifier_account: other(12),
        mint_to_be_liquified_metadata: metadata_account(&nft_mint(), nft_metadata),
        token_metadata_program: addr(metadata_program()),
    }
}

fn deliquify_ctx(state: Liquifier) -> Deliquify {
    let (liquifier, _) = liquifier_pda(&pk(PROGRAM_ID));
    Deliquify {
        liquifier: LiquifierAccount { key: addr(liquifier), data: state },
        liquifier_treasury_token_account: state.liquifier_treasury_token_account,
        user_token_account: other(10),
        user: other(9),
        user_signed: true,
        liquifier_token_mint: state.liquifier_token_mint,
        liquifier_collection_mint: state.liquifier_collection_mint,
        mint_to_be_deliquified: addr(nft_mint()),
        mint_to_be_deliquified_user_account: other(11),
        mint_to_be_deliquified_liquifier_account: other(12),
        mint_to_be_deliquified_metadata: addr(metadata_key(&nft_mint())),
        token_metadata_program: addr(metadata_program()),
    }
}

fn transfer_of(a: &Action) -> (Address, Address, Address, u64) {
    match a {
        Action::Transfer { from, to, authority, amount } => (*from, *to, *authority, *amount),
        _ => panic!("not a transfer"),
    }
}

// ---- error codes and messages ----

#[test]
fn error_codes_follow_declaration_order() {
    assert_eq!(LiquifierError::InvalidParamsForCollection.code(), 6000);
    assert_eq!(LiquifierError::EmptyMetadataAccount.code(), 6005);
    assert_eq!(LiquifierError::InvalidLiquifierTreasuryTokenAccountAddress.code(), 6011);
    assert_eq!(LiquifierError::InvalidMintToBeLiquifiedMetadata.code(), 6012);
}

#[test]
fn error_messages() {
    assert_eq!(LiquifierError::InvalidParamsForCollection.message(), "Invalid parameters for Collection");
    assert_eq!(LiquifierError::EmptyMetadataAccount.message(), "Empty Metadta Account");
    assert_eq!(LiquifierError::InvalidCollectionMint.message(), "Invalid Collection Mint in Metadata");
}

// ---- fixed addresses ----

#[test]
fn token_mint_address_is_recognised() {
    assert!(assert_token_mint_address(&addr(pk(TOKEN_MINT_ADDRESS))));
    assert!(!assert_token_mint_address(&addr(pk(COLLECTION_MINT_ADDRESS))));
    assert!(!assert_token_mint_address(&other(0)));
}

#[test]
fn collection_mint_address_is_recognised() {
    assert!(assert_collection_mint_address(&addr(pk(COLLECTION_MINT_ADDRESS))));
    assert!(!assert_collection_mint_address(&addr(pk(TOKEN_MINT_ADDRESS))));
}

#[test]
fn authority_addresses_are_recognised() {
    let authority = addr(pk(COLLECTION_AUTHORITY_ADDRESS));
    assert!(assert_collection_mint_update_authority(&authority));
    assert!(assert_collection_mint_verified_creator(&authority));
    assert!(assert_mint_to_be_liquified_verified_creator(&authority));
    assert!(assert_mint_to_be_liquified_update_authority(&authority));
    assert!(!assert_collection_mint_update_authority(&other(1)));
    assert!(!assert_mint_to_be_liquified_verified_creator(&other(1)));
}

// ---- create_liquifier ----

#[test]
fn create_liquifier_succeeds_and_fills_state() {
    let program = pk(PROGRAM_ID);
    let (liquifier, bump) = liquifier_pda(&program);
    let mut ctx = create_ctx();
    let actions = create_liquifier(&addr(program), &mut ctx, create_args()).unwrap();
    let s = ctx.liquifier.data;
    assert_eq!(s.bump, bump);
    assert!(same(&s.liquifier_id, &addr(liquifier)));
    assert_eq!(s.max_tokens_liquified, 0);
    assert_eq!(s.liquifier_treasury_token_amount, 0);
    assert_eq!(s.collection_size, 10_000);
    assert_eq!(s.liquified_nfts_count, 0);
    assert_eq!(s.liquification_threshold, 1_000_000_000);
    assert!(same(&s.liquifier_token_mint, &addr(pk(TOKEN_MINT_ADDRESS))));
    assert!(same(&s.liquifier_collection_mint, &addr(pk(COLLECTION_MINT_ADDRESS))));
    assert!(same(&s.liquifier_treasury_token_account, &ctx.liquifier_treasury_token_account));
    assert_eq!(actions.len(), 4);
    match &actions[0] {
        Action::CreateStateAccount { payer, account, signer_seeds } => {
            assert!(same(payer, &other(7)));
            assert!(same(account, &addr(liquifier)));
            assert_eq!(signer_seeds.len(), 4);
            assert_eq!(signer_seeds[0], b"liquifier".to_vec());
            assert_eq!(signer_seeds[3], vec![bump]);
        },
        _ => panic!("expected the state account first"),
    }
    assert!(matches!(actions[1], Action::CreateMintAccount { .. }));
    match &actions[2] {
        Action::InitializeMint { decimals, mint_authority, freeze_authority, .. } => {
            assert_eq!(*decimals, 0);
            assert!(same(mint_authority, &addr(liquifier)));
            assert!(same(freeze_authority, &addr(liquifier)));
        },
        _ => panic!("expected the mint initialisation"),
    }
    assert!(matches!(actions[3], Action::CreateAssociatedTokenAccount { .. }));
}

#[test]
fn create_liquifier_rejects_liquifier_not_at_derived_address() {
    let mut ctx = create_ctx();
    ctx.liquifier.key = other(3);
    assert_eq!(create_liquifier(&addr(pk(PROGRAM_ID)), &mut ctx, create_args()).unwrap_err(), InstructionError::ConstraintSeeds);
}

#[test]
fn create_liquifier_rejects_foreign_metadata_program() {
    let mut ctx = create_ctx();
    ctx.token_metadata_program = other(3);
    assert_eq!(create_liquifier(&addr(pk(PROGRAM_ID)), &mut ctx, create_args()).unwrap_err(), InstructionError::ConstraintAddress);
}

#[test]
fn create_liquifier_rejects_other_token_mint() {
    let program = pk(PROGRAM_ID);
    let mut ctx = create_ctx();
    let mint = Pubkey::new_from_array([5; 32]);
    let (liquifier, _) = Pubkey::find_program_address(
        &[b"liquifier", mint.as_ref(), pk(COLLECTION_MINT_ADDRESS).as_ref()],
        &program,
    );
    ctx.liquifier_token_mint = addr(mint);
    ctx.liquifier.key = addr(liquifier);
    assert_eq!(create_liquifier(&addr(program), &mut ctx, create_args()).unwrap_err(), InstructionError::ConstraintRaw);
}

#[test]
fn create_handler_rejects_wrong_parameters() {
    for ix in [
        CreateLiquifierArgs { decimals: 1, ..create_args() },
        CreateLiquifierArgs { collection_size: 9_999, ..create_args() },
        CreateLiquifierArgs { liquification_threshold: 1, ..create_args() },
    ] {
        let mut ctx = create_ctx();
        let r = create_liquifier::handler(&mut ctx, &ix, 255);
        assert_eq!(r.unwrap_err(), InstructionError::Liquifier(LiquifierError::InvalidParamsForCollection));
        assert_eq!(ctx.liquifier.data.collection_size, 0);
    }
}

#[test]
fn create_handler_rejects_treasury_not_associated_account() {
    let mut ctx = create_ctx();
    ctx.liquifier_treasury_token_account = other(4);
    let r = create_liquifier::handler(&mut ctx, &create_args(), 255);
    assert_eq!(r.unwrap_err(), InstructionError::Liquifier(LiquifierError::InvalidLiquifierTreasuryTokenAccountAddress));
}

#[test]
fn create_handler_rejects_metadata_not_at_derived_address() {
    let mut ctx = create_ctx();
    ctx.liquifier_collection_mint_metadata.key = other(4);
    let r = create_liquifier::handler(&mut ctx, &create_args(), 255);
    assert_eq!(r.unwrap_err(), InstructionError::DerivedKeyInvalid);
}

#[test]
fn create_handler_rejects_empty_metadata() {
    let mut ctx = create_ctx();
    ctx.liquifier_collection_mint_metadata.data = Vec::new();
    let r = create_liquifier::handler(&mut ctx, &create_args(), 255);
    assert_eq!(r.unwrap_err(), InstructionError::Liquifier(LiquifierError::EmptyMetadataAccount));
}

#[test]
fn create_handler_rejects_metadata_of_other_owner() {
    let mut ctx = create_ctx();
    ctx.liquifier_collection_mint_metadata.owner = other(4);
    let r = create_liquifier::handler(&mut ctx, &create_args(), 255);
    assert_eq!(r.unwrap_err(), InstructionError::Liquifier(LiquifierError::InvalidMintMetadataOwner));
}

#[test]
fn create_handler_rejects_unreadable_metadata() {
    let mut ctx = create_ctx();
    ctx.liquifier_collection_mint_metadata.data = vec![4, 0, 0];
    let r = create_liquifier::handler(&mut ctx, &create_args(), 255);
    assert_eq!(r.unwrap_err(), InstructionError::MetadataUnreadable);
}

fn create_with_metadata(f: MetadataFields) -> Result<Vec<Action>, InstructionError> {
    let mut ctx = create_ctx();
    ctx.liquifier_collection_mint_metadata.data = metadata_bytes(f);
    create_liquifier::handler(&mut ctx, &create_args(), 255)
}

#[test]
fn create_handler_checks_collection_metadata() {
    let bad = InstructionError::Liquifier(LiquifierError::InvalidCollectionMintMetadata);
    assert_eq!(create_with_metadata(MetadataFields { mint: nft_mint(), ..collection_fields() }).unwrap_err(), bad);
    assert_eq!(create_with_metadata(MetadataFields { primary_sale_happened: true, ..collection_fields() }).unwrap_err(), bad);
    assert_eq!(
        create_with_metadata(MetadataFields {
            token_standard: Some(mpl_token_metadata::state::TokenStandard::Fungible),
            ..collection_fields()
        })
        .unwrap_err(),
        bad
    );
    assert_eq!(create_with_metadata(MetadataFields { token_standard: None, ..collection_fields() }).unwrap_err(), bad);
    assert_eq!(create_with_metadata(MetadataFields { seller_fee_basis_points: 1, ..collection_fields() }).unwrap_err(), bad);
    assert_eq!(create_with_metadata(MetadataFields { collection: verified_collection(), ..collection_fields() }).unwrap_err(), bad);
}

#[test]
fn create_handler_checks_creators() {
    let bad = InstructionError::Liquifier(LiquifierError::InvalidCollectionMintMetadata);
    let unverified = vec![mpl_token_metadata::state::Creator {
        address: pk(COLLECTION_AUTHORITY_ADDRESS),
        verified: false,
        share: 100,
    }];
    assert_eq!(create_with_metadata(MetadataFields { creators: Some(unverified), ..collection_fields() }).unwrap_err(), bad);
    let stranger = vec![mpl_token_metadata::state::Creator { address: Pubkey::new_from_array([3; 32]), verified: true, share: 100 }];
    assert_eq!(create_with_metadata(MetadataFields { creators: Some(stranger), ..collection_fields() }).unwrap_err(), bad);
    let second = vec![
        mpl_token_metadata::state::Creator { address: Pubkey::new_from_array([3; 32]), verified: true, share: 50 },
        mpl_token_metadata::state::Creator { address: pk(COLLECTION_AUTHORITY_ADDRESS), verified: true, share: 50 },
    ];
    assert!(create_with_metadata(MetadataFields { creators: Some(second), ..collection_fields() }).is_ok());
    assert!(create_with_metadata(MetadataFields { creators: None, ..collection_fields() }).is_ok());
}

// ---- turnon_liquifier ----

#[test]
fn turnon_liquifier_records_total_and_mints_previous_maximum() {
    let state = created_state();
    let mut ctx = turnon_ctx(state);
    let actions = turnon_liquifier(&addr(pk(PROGRAM_ID)), &mut ctx, turnon_args()).unwrap();
    let s = ctx.liquifier.data;
    assert_eq!(s.max_tokens_liquified, 10_000_000_000_000);
    assert_eq!(s.liquifier_treasury_token_amount, 10_000_000_000_000);
    assert_eq!(s.liquified_nfts_count, 10_000);
    assert_eq!(s.bump, state.bump);
    assert_eq!(actions.len(), 2);
    match &actions[0] {
        Action::CreateMetadataAccount { name, symbol, signer_seeds, .. } => {
            assert_eq!(name, "Ocul");
            assert_eq!(symbol, "OCUL");
            assert_eq!(signer_seeds[3], vec![state.bump]);
        },
        _ => panic!("expected the metadata creation"),
    }
    match &actions[1] {
        Action::MintTo { amount, to, .. } => {
            assert_eq!(*amount, 0);
            assert!(same(to, &state.liquifier_treasury_token_account));
        },
        _ => panic!("expected the mint"),
    }
}

#[test]
fn turnon_liquifier_again_keeps_state_and_mints_total() {
    let mut ctx = turnon_ctx(created_state());
    turnon_liquifier(&addr(pk(PROGRAM_ID)), &mut ctx, turnon_args()).unwrap();
    let first = ctx.liquifier.data;
    let actions = turnon_liquifier(&addr(pk(PROGRAM_ID)), &mut ctx, turnon_args()).unwrap();
    assert_eq!(ctx.liquifier.data.max_tokens_liquified, first.max_tokens_liquified);
    assert_eq!(ctx.liquifier.data.liquified_nfts_count, first.liquified_nfts_count);
    match &actions[1] {
        Action::MintTo { amount, .. } => assert_eq!(*amount, 10_000_000_000_000),
        _ => panic!("expected the mint"),
    }
}

#[test]
fn turnon_liquifier_rejects_wrong_bump() {
    let mut state = created_state();
    state.bump = state.bump.wrapping_sub(1);
    let mut ctx = turnon_ctx(state);
    assert_eq!(turnon_liquifier(&addr(pk(PROGRAM_ID)), &mut ctx, turnon_args()).unwrap_err(), InstructionError::ConstraintSeeds);
}

#[test]
fn turnon_liquifier_rejects_other_treasury() {
    let mut ctx = turnon_ctx(created_state());
    ctx.liquifier_treasury_token_account.key = other(20);
    assert_eq!(turnon_liquifier(&addr(pk(PROGRAM_ID)), &mut ctx, turnon_args()).unwrap_err(), InstructionError::ConstraintHasOne);
}

#[test]
fn turnon_liquifier_rejects_other_collection_size() {
    let mut ctx = turnon_ctx(created_state());
    let ix = TurnonLiquifierArgs { collection_size: 5, ..turnon_args() };
    assert_eq!(turnon_liquifier(&addr(pk(PROGRAM_ID)), &mut ctx, ix).unwrap_err(), InstructionError::ConstraintRaw);
    assert_eq!(ctx.liquifier.data.max_tokens_liquified, 0);
}

#[test]
fn turnon_liquifier_checks_treasury_mint_and_owner() {
    let mut ctx = turnon_ctx(created_state());
    ctx.liquifier_treasury_token_account.mint = other(21);
    assert_eq!(
        turnon_liquifier(&addr(pk(PROGRAM_ID)), &mut ctx, turnon_args()).unwrap_err(),
        InstructionError::Liquifier(LiquifierError::InvalidLiquifierTokenMint)
    );
    let mut ctx = turnon_ctx(created_state());
    ctx.liquifier_treasury_token_account.owner = other(21);
    assert_eq!(
        turnon_liquifier(&addr(pk(PROGRAM_ID)), &mut ctx, turnon_args()).unwrap_err(),
        InstructionError::Liquifier(LiquifierError::InvalidLiquifierTreasuryTokenAccountOwner)
    );
}

#[test]
fn turnon_handler_rejects_metadata_not_at_derived_address() {
    let mut ctx = turnon_ctx(created_state());
    ctx.liquifier_token_mint_metadata = other(22);
    assert_eq!(turnon_liquifier::handler(&mut ctx, turnon_args()).unwrap_err(), InstructionError::DerivedKeyInvalid);
    assert_eq!(ctx.liquifier.data.liquified_nfts_count, 0);
}

// ---- liquify and deliquify ----

#[test]
fn liquify_is_always_refused_by_account_checks() {
    let ctx = liquify_ctx(created_state(), metadata_bytes(nft_fields(verified_collection())));
    assert_eq!(liquify(&addr(pk(PROGRAM_ID)), &ctx).unwrap_err(), InstructionError::NoViableBump);
    assert_eq!(ctx.validate(&addr(pk(PROGRAM_ID))).unwrap_err(), InstructionError::NoViableBump);
}

#[test]
fn liquify_without_signature_is_refused_first() {
    let mut ctx = liquify_ctx(created_state(), metadata_bytes(nft_fields(verified_collection())));
    ctx.user_signed = false;
    assert_eq!(liquify(&addr(pk(PROGRAM_ID)), &ctx).unwrap_err(), InstructionError::AccountNotSigner);
    let mut ctx = deliquify_ctx(created_state());
    ctx.user_signed = false;
    assert_eq!(deliquify(&addr(pk(PROGRAM_ID)), &ctx).unwrap_err(), InstructionError::AccountNotSigner);
}

#[test]
fn create_and_turnon_need_admin_signature() {
    let mut ctx = create_ctx();
    ctx.admin_signed = false;
    assert_eq!(create_liquifier(&addr(pk(PROGRAM_ID)), &mut ctx, create_args()).unwrap_err(), InstructionError::AccountNotSigner);
    let mut ctx = turnon_ctx(created_state());
    ctx.admin_signed = false;
    assert_eq!(turnon_liquifier(&addr(pk(PROGRAM_ID)), &mut ctx, turnon_args()).unwrap_err(), InstructionError::AccountNotSigner);
    assert_eq!(ctx.liquifier.data.max_tokens_liquified, 0);
}

#[test]
fn metadata_derivation_check_through_public_function() {
    let program = addr(metadata_program());
    let mint = pk(COLLECTION_MINT_ADDRESS);
    assert!(liquifier::metadata::check_metadata_derivation(&program, &addr(metadata_key(&mint)), &addr(mint)).is_ok());
    assert_eq!(
        liquifier::metadata::check_metadata_derivation(&program, &other(5), &addr(mint)).unwrap_err(),
        InstructionError::DerivedKeyInvalid
    );
}

#[test]
fn deliquify_is_always_refused_by_account_checks() {
    let ctx = deliquify_ctx(created_state());
    assert_eq!(deliquify(&addr(pk(PROGRAM_ID)), &ctx).unwrap_err(), InstructionError::NoViableBump);
    assert_eq!(ctx.validate(&addr(pk(PROGRAM_ID))).unwrap_err(), InstructionError::NoViableBump);
}

#[test]
fn liquify_handler_exchanges_nft_for_tokens() {
    let state = created_state();
    let ctx = liquify_ctx(state, metadata_bytes(nft_fields(verified_collection())));
    let actions = liquify::handler(&ctx).unwrap();
    assert_eq!(actions.len(), 2);
    let (from, to, authority, amount) = transfer_of(&actions[0]);
    assert!(same(&from, &other(11)) && same(&to, &other(12)) && same(&authority, &other(9)));
    assert_eq!(amount, 1);
    let (from, to, authority, amount) = transfer_of(&actions[1]);
    assert!(same(&from, &state.liquifier_treasury_token_account) && same(&to, &other(10)));
    assert!(same(&authority, &ctx.liquifier.key));
    assert_eq!(amount, 1_000_000_000);
}

#[test]
fn liquify_handler_checks_nft_metadata() {
    let state = created_state();
    let run = |f: MetadataFields| liquify::handler(&liquify_ctx(state, metadata_bytes(f))).unwrap_err();
    assert_eq!(
        run(MetadataFields { mint: pk(COLLECTION_MINT_ADDRESS), ..nft_fields(verified_collection()) }),
        InstructionError::Liquifier(LiquifierError::InvalidMintToBeLiquifiedMetadata)
    );
    assert_eq!(run(nft_fields(None)), InstructionError::Liquifier(LiquifierError::NoCollectionDefined));
    assert_eq!(
        run(nft_fields(Some(mpl_token_metadata::state::Collection { verified: false, key: pk(COLLECTION_MINT_ADDRESS) }))),
        InstructionError::Liquifier(LiquifierError::UnverifiedCollection)
    );
    assert_eq!(
        run(nft_fields(Some(mpl_token_metadata::state::Collection { verified: true, key: nft_mint() }))),
        InstructionError::Liquifier(LiquifierError::InvalidCollectionMint)
    );
}

#[test]
fn liquify_handler_checks_metadata_accounts() {
    let state = created_state();
    let good = metadata_bytes(nft_fields(verified_collection()));
    let mut ctx = liquify_ctx(state, good.clone());
    ctx.liquifier_collection_mint_metadata.key = other(30);
    assert_eq!(liquify::handler(&ctx).unwrap_err(), InstructionError::DerivedKeyInvalid);
    let mut ctx = liquify_ctx(state, good.clone());
    ctx.liquifier_token_mint_metadata.data = Vec::new();
    assert_eq!(liquify::handler(&ctx).unwrap_err(), InstructionError::Liquifier(LiquifierError::EmptyMetadataAccount));
    let mut ctx = liquify_ctx(state, good.clone());
    ctx.liquifier_token_mint_metadata.owner = other(31);
    assert_eq!(liquify::handler(&ctx).unwrap_err(), InstructionError::Liquifier(LiquifierError::InvalidMintMetadataOwner));
    let ctx = liquify_ctx(state, vec![1, 2, 3]);
    assert_eq!(liquify::handler(&ctx).unwrap_err(), InstructionError::MetadataUnreadable);
}

#[test]
fn deliquify_handler_reverses_liquify_transfers() {
    let state = created_state();
    let l = liquify::handler(&liquify_ctx(state, metadata_bytes(nft_fields(verified_collection())))).unwrap();
    let d = deliquify::handler(&deliquify_ctx(state));
    assert_eq!(l.len(), 2);
    assert_eq!(d.len(), 2);
    for i in 0..2 {
        let (lf, lt, _, la) = transfer_of(&l[i]);
        let (df, dt, _, da) = transfer_of(&d[i]);
        assert!(same(&lf, &dt) && same(&lt, &df));
        assert_eq!(la, da);
    }
}

#[test]
fn states_written_keep_the_invariant() {
    let created = created_state();
    assert_eq!(created.max_tokens_liquified, created.liquifier_treasury_token_amount);
    let mut ctx = turnon_ctx(created);
    turnon_liquifier(&addr(pk(PROGRAM_ID)), &mut ctx, turnon_args()).unwrap();
    let s = ctx.liquifier.data;
    assert_eq!(s.collection_size as usize, SOLOCCULT_COLLECTION_SIZE);
    assert_eq!(s.liquification_threshold as usize, OCUL_PER_SOLOCCULT);
    assert_eq!(s.max_tokens_liquified, s.liquifier_treasury_token_amount);
    assert!(s.max_tokens_liquified <= u64::MAX as u128);
}

// ---- the checks on metadata already read ----

fn plain_metadata(mint: Address, collection: Option<liquifier::metadata::Collection>) -> liquifier::metadata::Metadata {
    liquifier::metadata::Metadata {
        mint,
        primary_sale_happened: false,
        token_standard: Some(liquifier::metadata::NON_FUNGIBLE),
        seller_fee_basis_points: 0,
        creators: None,
        collection,
    }
}

#[test]
fn nft_metadata_checks_in_order() {
    let (a, b) = (other(1), other(2));
    let good = plain_metadata(a, Some(Collection { verified: true, key: b }));
    assert!(check_nft_metadata(&good, &a, &b).is_ok());
    assert_eq!(check_nft_metadata(&good, &b, &b).unwrap_err(), LiquifierError::InvalidMintToBeLiquifiedMetadata);
    assert_eq!(check_nft_metadata(&good, &a, &a).unwrap_err(), LiquifierError::InvalidCollectionMint);
    let unverified = plain_metadata(a, Some(Collection { verified: false, key: b }));
    assert_eq!(check_nft_metadata(&unverified, &a, &b).unwrap_err(), LiquifierError::UnverifiedCollection);
    assert_eq!(check_nft_metadata(&plain_metadata(a, None), &a, &b).unwrap_err(), LiquifierError::NoCollectionDefined);
}

#[test]
fn collection_metadata_checks() {
    let a = other(1);
    assert!(check_collection_metadata(&plain_metadata(a, None), &a).is_ok());
    assert!(check_collection_metadata(&plain_metadata(a, None), &other(2)).is_err());
    let in_collection = plain_metadata(a, Some(Collection { verified: true, key: other(2) }));
    assert_eq!(check_collection_metadata(&in_collection, &a).unwrap_err(), LiquifierError::InvalidCollectionMintMetadata);
    let mut with_creator = plain_metadata(a, None);
    with_creator.creators = Some(vec![Creator { address: addr(pk(COLLECTION_AUTHORITY_ADDRESS)), verified: true }]);
    assert!(check_collection_metadata(&with_creator, &a).is_ok());
    with_creator.creators = Some(vec![Creator { address: addr(pk(COLLECTION_AUTHORITY_ADDRESS)), verified: false }]);
    assert!(check_collection_metadata(&with_creator, &a).is_err());
}
