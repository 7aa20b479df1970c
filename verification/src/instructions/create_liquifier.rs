use vstd::prelude::*;

use crate::accounts::{LiquifierAccount, MetadataAccount};
use crate::action::{Action, ActionView, actions_view};
use crate::address::Address;
use crate::error::{InstructionError, LiquifierError};
use crate::metadata::{
    Creator, CreatorView, Metadata, MetadataView, NON_FUNGIBLE, check_metadata_derivation,
    deserialize_metadata, metadata_derivation_outcome, spec_deserialize_metadata,
    token_metadata_program, token_metadata_program_id,
};
use crate::pda::{
    associated_token_address, associated_token_program, associated_token_program_id,
    associated_token_seeds, find_program_address, make_associated_token_seeds,
    spec_create_program_address, spec_find_program_address,
};
use crate::state::{
    Liquifier, OCUL_PER_SOLOCCULT, SOLOCCULT_COLLECTION_SIZE, TOKEN_MINT_ADDRESS,
    COLLECTION_MINT_ADDRESS, COLLECTION_AUTHORITY_ADDRESS, assert_collection_mint_address,
    assert_collection_mint_verified_creator, assert_token_mint_address, is_address,
    liquifier_seeds, make_liquifier_seeds,
};

verus! {

/// Arguments of `create_liquifier`.
#[derive(Clone, Copy, Debug)]
pub struct CreateLiquifierArgs {
    /// Decimals of the fungible token.
    pub decimals: u8,
    /// Size of the NFT collection.
    pub collection_size: u64,
    /// Number of tokens per NFT.
    pub liquification_threshold: u64,
}

/// Accounts of `create_liquifier`.
#[derive(Debug)]
pub struct CreateLiquifier {
    /// The liquifier account, created by this instruction at the address
    /// derived from `LIQUIFIER_SEED`, the token mint and the collection mint.
    pub liquifier: LiquifierAccount,
    /// The administrator, who pays and signs.
    pub admin: Address,
    /// Whether the administrator signed the transaction.
    pub admin_signed: bool,
    /// The treasury token account of the liquifier.
    pub liquifier_treasury_token_account: Address,
    /// The token mint.
    pub liquifier_token_mint: Address,
    /// The collection mint.
    pub liquifier_collection_mint: Address,
    /// The metadata account of the collection mint.
    pub liquifier_collection_mint_metadata: MetadataAccount,
    /// The token metadata program.
    pub token_metadata_program: Address,
}

/// The outcome of the account constraints of `create_liquifier`, in the
/// order they are checked: the bump seed of the liquifier account, or the
/// first failure.
pub open spec fn accounts_outcome(program_id: Seq<u8>, ctx: CreateLiquifier) -> Result<u8, InstructionError> {
    if !ctx.admin_signed {
        Err(InstructionError::AccountNotSigner)
    } else {
    match spec_find_program_address(liquifier_seeds(ctx.liquifier_token_mint@, ctx.liquifier_collection_mint@), program_id) {
        None => Err(InstructionError::NoViableBump),
        Some(found) => if ctx.liquifier.key@ != found.0 {
            Err(InstructionError::ConstraintSeeds)
        } else if !is_address(TOKEN_MINT_ADDRESS@, ctx.liquifier_token_mint@) {
            Err(InstructionError::ConstraintRaw)
        } else if !is_address(COLLECTION_MINT_ADDRESS@, ctx.liquifier_collection_mint@) {
            Err(InstructionError::ConstraintRaw)
        } else if ctx.token_metadata_program@ != token_metadata_program() {
            Err(InstructionError::ConstraintAddress)
        } else {
            Ok(found.1)
        },
    }
    }
}

impl CreateLiquifier {
    /// Checks the account constraints of `create_liquifier`; gives the bump
    /// seed of the liquifier account's address.
    pub fn validate(&self, program_id: &Address) -> (r: Result<u8, InstructionError>)
        ensures
            r == accounts_outcome(program_id@, *self),
            r matches Ok(bump) ==> spec_create_program_address(
                liquifier_seeds(self.liquifier_token_mint@, self.liquifier_collection_mint@).push(seq![bump]),
                program_id@,
            ) == Some(self.liquifier.key@),
    {
        if !self.admin_signed {
            return Err(InstructionError::AccountNotSigner);
        }
        let seeds = make_liquifier_seeds(&self.liquifier_token_mint, &self.liquifier_collection_mint);
        let found = find_program_address(&seeds, program_id);
        let (pda, bump) = match found {
            Some(found) => found,
            None => return Err(InstructionError::NoViableBump),
        };
        if !self.liquifier.key.same_as(&pda) {
            return Err(InstructionError::ConstraintSeeds);
        }
        if !assert_token_mint_address(&self.liquifier_token_mint) {
            return Err(InstructionError::ConstraintRaw);
        }
        if !assert_collection_mint_address(&self.liquifier_collection_mint) {
            return Err(InstructionError::ConstraintRaw);
        }
        let metadata_program = token_metadata_program_id();
        if !self.token_metadata_program.same_as(&metadata_program) {
            return Err(InstructionError::ConstraintAddress);
        }
        Ok(bump)
    }
}

/// Whether the arguments are the collection's: one token per NFT equal to
/// `OCUL_PER_SOLOCCULT`, the collection's size, and no decimals.
pub open spec fn params_valid(ix: CreateLiquifierArgs) -> bool {
    &&& ix.liquification_threshold == OCUL_PER_SOLOCCULT
    &&& ix.collection_size == SOLOCCULT_COLLECTION_SIZE
    &&& ix.decimals == 0
}

/// Whether some creator in `creators` is the collection's authority and verified.
pub open spec fn has_verified_authority_creator(creators: Seq<CreatorView>) -> bool {
    exists|i: int|
        0 <= i < creators.len() && is_address(COLLECTION_AUTHORITY_ADDRESS@, #[trigger] creators[i].address)
            && creators[i].verified
}

/// Whether metadata read from the collection mint's metadata account is
/// acceptable: it belongs to `collection_mint`, no primary sale happened, it
/// is a non-fungible token without royalties, its creators (if any) include
/// the verified collection authority, and it belongs to no collection.
pub open spec fn collection_metadata_acceptable(md: MetadataView, collection_mint: Seq<u8>) -> bool {
    &&& md.mint == collection_mint
    &&& !md.primary_sale_happened
    &&& md.token_standard == Some(NON_FUNGIBLE)
    &&& md.seller_fee_basis_points == 0
    &&& (md.creators matches Some(cs) ==> has_verified_authority_creator(cs))
    &&& md.collection is None
}

/// The state a new liquifier starts with.
pub open spec fn created_state(ctx: CreateLiquifier, ix: CreateLiquifierArgs, bump: u8) -> Liquifier {
    Liquifier {
        bump: bump,
        liquifier_id: ctx.liquifier.key,
        max_tokens_liquified: 0,
        liquifier_treasury_token_amount: 0,
        collection_size: ix.collection_size,
        liquified_nfts_count: 0,
        liquification_threshold: ix.liquification_threshold,
        liquifier_token_mint: ctx.liquifier_token_mint,
        liquifier_treasury_token_account: ctx.liquifier_treasury_token_account,
        liquifier_collection_mint: ctx.liquifier_collection_mint,
    }
}

/// The calls `create_liquifier` makes: create the token mint's account,
/// initialise the mint with the liquifier as mint and freeze authority, and
/// create the liquifier's associated token account (the treasury).
pub open spec fn created_actions(ctx: CreateLiquifier, ix: CreateLiquifierArgs) -> Seq<ActionView> {
    seq![
        ActionView::CreateMintAccount { payer: ctx.admin@, mint: ctx.liquifier_token_mint@ },
        ActionView::InitializeMint {
            mint: ctx.liquifier_token_mint@,
            decimals: ix.decimals,
            mint_authority: ctx.liquifier.key@,
            freeze_authority: ctx.liquifier.key@,
        },
        ActionView::CreateAssociatedTokenAccount {
            payer: ctx.admin@,
            associated_token: ctx.liquifier_treasury_token_account@,
            authority: ctx.liquifier.key@,
            mint: ctx.liquifier_token_mint@,
        },
    ]
}

/// The outcome of the handler of `create_liquifier`, in the order it checks:
/// the new state and the calls to make, or the first failure.
pub open spec fn handler_outcome(ctx: CreateLiquifier, ix: CreateLiquifierArgs, bump: u8) -> Result<(Liquifier, Seq<ActionView>), InstructionError> {
    if !params_valid(ix) {
        Err(InstructionError::Liquifier(LiquifierError::InvalidParamsForCollection))
    } else {
        match spec_find_program_address(
            associated_token_seeds(ctx.liquifier.key@, ctx.liquifier_token_mint@),
            associated_token_program(),
        ) {
            None => Err(InstructionError::NoViableBump),
            Some(ata) => if ata.0 != ctx.liquifier_treasury_token_account@ {
                Err(InstructionError::Liquifier(LiquifierError::InvalidLiquifierTreasuryTokenAccountAddress))
            } else {
                metadata_outcome(ctx, ix, bump)
            },
        }
    }
}

/// The part of `handler_outcome` after the treasury check: the collection
/// mint's metadata account and its content.
pub open spec fn metadata_outcome(ctx: CreateLiquifier, ix: CreateLiquifierArgs, bump: u8) -> Result<(Liquifier, Seq<ActionView>), InstructionError> {
    let md_account = ctx.liquifier_collection_mint_metadata;
    match metadata_derivation_outcome(md_account.key@, ctx.liquifier_collection_mint@) {
        Err(e) => Err(e),
        Ok(()) => if md_account.data@.len() == 0 {
            Err(InstructionError::Liquifier(LiquifierError::EmptyMetadataAccount))
        } else if md_account.owner@ != token_metadata_program() {
            Err(InstructionError::Liquifier(LiquifierError::InvalidMintMetadataOwner))
        } else {
            match spec_deserialize_metadata(md_account.data@) {
                None => Err(InstructionError::MetadataUnreadable),
                Some(md) => if !collection_metadata_acceptable(md, ctx.liquifier_collection_mint@) {
                    Err(InstructionError::Liquifier(LiquifierError::InvalidCollectionMintMetadata))
                } else {
                    Ok((created_state(ctx, ix, bump), created_actions(ctx, ix)))
                },
            }
        },
    }
}

/// Whether some creator is the collection's authority and verified.
fn find_verified_authority_creator(creators: &Vec<Creator>) -> (r: bool)
    ensures
        r == has_verified_authority_creator(creators@.map_values(|c: Creator| c@)),
{
    let ghost cs = creators@.map_values(|c: Creator| c@);
    let mut i: usize = 0;
    while i < creators.len()
        invariant
            i <= creators@.len(),
            cs == creators@.map_values(|c: Creator| c@),
            forall|j: int| 0 <= j < i ==> !(is_address(COLLECTION_AUTHORITY_ADDRESS@, #[trigger] cs[j].address) && cs[j].verified),
        decreases creators@.len() - i,
    {
        let c = &creators[i];
        if assert_collection_mint_verified_creator(&c.address) && c.verified {
            assert(cs[i as int] == c@);
            assert(is_address(COLLECTION_AUTHORITY_ADDRESS@, cs[i as int].address) && cs[i as int].verified);
            return true;
        }
        assert(cs[i as int] == c@);
        i = i + 1;
    }
    false
}

/// Checks the metadata read from the collection mint's metadata account
/// (see `collection_metadata_acceptable`).
pub fn check_collection_metadata(md: &Metadata, collection_mint: &Address) -> (r: Result<(), LiquifierError>)
    ensures
        r is Ok <==> collection_metadata_acceptable(md@, collection_mint@),
        r is Err ==> r == Err::<(), _>(LiquifierError::InvalidCollectionMintMetadata),
{
    if !md.mint.same_as(collection_mint) || md.primary_sale_happened != false
        || md.token_standard != Some(NON_FUNGIBLE) || md.seller_fee_basis_points != 0 {
        return Err(LiquifierError::InvalidCollectionMintMetadata);
    }
    match &md.creators {
        Some(creators) => {
            if !find_verified_authority_creator(creators) {
                return Err(LiquifierError::InvalidCollectionMintMetadata);
            }
        },
        None => {},
    }
    if md.collection.is_some() {
        return Err(LiquifierError::InvalidCollectionMintMetadata);
    }
    Ok(())
}

/// Handler of `create_liquifier`: checks the arguments and the collection's
/// metadata, then fills in the new liquifier's state and gives the calls to
/// make. On a failure the state is left as it was.
pub fn handler(ctx: &mut CreateLiquifier, ix: &CreateLiquifierArgs, bump: u8) -> (r: Result<Vec<Action>, InstructionError>)
    ensures
        match r {
            Ok(actions) => handler_outcome(*old(ctx), *ix, bump) == Ok::<_, InstructionError>((final(ctx).liquifier.data, actions_view(actions@))),
            Err(e) => handler_outcome(*old(ctx), *ix, bump) == Err::<(Liquifier, Seq<ActionView>), _>(e)
                && final(ctx).liquifier.data == old(ctx).liquifier.data,
        },
        final(ctx).liquifier.key == old(ctx).liquifier.key,
        final(ctx).admin == old(ctx).admin,
        final(ctx).admin_signed == old(ctx).admin_signed,
        final(ctx).liquifier_treasury_token_account == old(ctx).liquifier_treasury_token_account,
        final(ctx).liquifier_token_mint == old(ctx).liquifier_token_mint,
        final(ctx).liquifier_collection_mint == old(ctx).liquifier_collection_mint,
        final(ctx).liquifier_collection_mint_metadata == old(ctx).liquifier_collection_mint_metadata,
        final(ctx).token_metadata_program == old(ctx).token_metadata_program,
{
    if ix.liquification_threshold != OCUL_PER_SOLOCCULT as u64 || ix.collection_size != SOLOCCULT_COLLECTION_SIZE as u64
        || ix.decimals != 0 {
        return Err(InstructionError::Liquifier(LiquifierError::InvalidParamsForCollection));
    }
    let ata_seeds = make_associated_token_seeds(&ctx.liquifier.key, &ctx.liquifier_token_mint);
    let ata_program = associated_token_program_id();
    if find_program_address(&ata_seeds, &ata_program).is_none() {
        return Err(InstructionError::NoViableBump);
    }
    let ata = associated_token_address(&ctx.liquifier.key, &ctx.liquifier_token_mint);
    if !ata.same_as(&ctx.liquifier_treasury_token_account) {
        return Err(InstructionError::Liquifier(LiquifierError::InvalidLiquifierTreasuryTokenAccountAddress));
    }
    let metadata_program = token_metadata_program_id();
    check_metadata_derivation(&metadata_program, &ctx.liquifier_collection_mint_metadata.key, &ctx.liquifier_collection_mint)?;
    if ctx.liquifier_collection_mint_metadata.data.len() == 0 {
        return Err(InstructionError::Liquifier(LiquifierError::EmptyMetadataAccount));
    }
    if !ctx.liquifier_collection_mint_metadata.owner.same_as(&metadata_program) {
        return Err(InstructionError::Liquifier(LiquifierError::InvalidMintMetadataOwner));
    }
    let md = match deserialize_metadata(ctx.liquifier_collection_mint_metadata.data.as_slice()) {
        Some(md) => md,
        None => return Err(InstructionError::MetadataUnreadable),
    };
    if check_collection_metadata(&md, &ctx.liquifier_collection_mint).is_err() {
        return Err(InstructionError::Liquifier(LiquifierError::InvalidCollectionMintMetadata));
    }
    let liquifier_key = ctx.liquifier.key;
    let actions = vec![
        Action::CreateMintAccount { payer: ctx.admin, mint: ctx.liquifier_token_mint },
        Action::InitializeMint {
            mint: ctx.liquifier_token_mint,
            decimals: ix.decimals,
            mint_authority: liquifier_key,
            freeze_authority: liquifier_key,
        },
        Action::CreateAssociatedTokenAccount {
            payer: ctx.admin,
            associated_token: ctx.liquifier_treasury_token_account,
            authority: liquifier_key,
            mint: ctx.liquifier_token_mint,
        },
    ];
    ctx.liquifier.data = Liquifier {
        bump: bump,
        liquifier_id: liquifier_key,
        max_tokens_liquified: 0,
        liquifier_treasury_token_amount: 0,
        collection_size: ix.collection_size,
        liquified_nfts_count: 0,
        liquification_threshold: ix.liquification_threshold,
        liquifier_token_mint: ctx.liquifier_token_mint,
        liquifier_treasury_token_account: ctx.liquifier_treasury_token_account,
        liquifier_collection_mint: ctx.liquifier_collection_mint,
    };
    assert(actions_view(actions@) =~= created_actions(*old(ctx), *ix));
    Ok(actions)
}

} // verus!
