use vstd::prelude::*;

use crate::accounts::{LiquifierAccount, MetadataAccount, TokenAccount};
use crate::action::{Action, ActionView, actions_view};
use crate::address::Address;
use crate::constraints::{check_liquifier_account, liquifier_account_outcome};
use crate::error::{InstructionError, LiquifierError};
use crate::metadata::{
    Metadata, MetadataView, check_metadata_derivation, deserialize_metadata,
    metadata_derivation_outcome, spec_deserialize_metadata, token_metadata_program,
    token_metadata_program_id,
};
use crate::pda::{find_program_address, seeds_view, spec_find_program_address};
use crate::state::{
    lemma_liquified_nft_account_seed_too_long, liquified_nft_account_seeds,
    make_liquified_nft_account_seeds,
};

verus! {

/// Accounts of `liquify`.
#[derive(Debug)]
pub struct Liquify {
    pub liquifier: LiquifierAccount,
    pub liquifier_treasury_token_account: TokenAccount,
    /// The user's account of the fungible token.
    pub user_token_account: TokenAccount,
    /// The user, who pays and signs.
    pub user: Address,
    /// Whether the user signed the transaction.
    pub user_signed: bool,
    pub liquifier_token_mint: Address,
    pub liquifier_collection_mint: Address,
    pub liquifier_token_mint_metadata: MetadataAccount,
    pub liquifier_collection_mint_metadata: MetadataAccount,
    /// The mint of the NFT handed in.
    pub mint_to_be_liquified: Address,
    /// The user's account holding the NFT.
    pub mint_to_be_liquified_user_account: TokenAccount,
    /// The liquifier's account for the NFT, created if needed at the address
    /// derived from `LIQUIFIED_NFT_ACCOUNT_SEED`, the liquifier and the mint.
    pub mint_to_be_liquified_liquifier_account: Address,
    pub mint_to_be_liquified_metadata: MetadataAccount,
    pub token_metadata_program: Address,
}

/// The outcome of the account constraints of `liquify`, in the order they
/// are checked: the bump seed of the liquifier's NFT account, or the first
/// failure. The account created if needed is handled first.
pub open spec fn accounts_outcome(program_id: Seq<u8>, ctx: Liquify) -> Result<u8, InstructionError> {
    if !ctx.user_signed {
        Err(InstructionError::AccountNotSigner)
    } else {
    match spec_find_program_address(liquified_nft_account_seeds(ctx.liquifier.key@, ctx.mint_to_be_liquified@), program_id) {
        None => Err(InstructionError::NoViableBump),
        Some(found) => if ctx.mint_to_be_liquified_liquifier_account@ != found.0 {
            Err(InstructionError::ConstraintSeeds)
        } else {
            match liquifier_account_outcome(
                program_id,
                ctx.liquifier,
                ctx.liquifier_treasury_token_account.key@,
                ctx.liquifier_token_mint@,
                ctx.liquifier_collection_mint@,
            ) {
                Err(e) => Err(e),
                Ok(()) => if ctx.liquifier_treasury_token_account.mint@ != ctx.liquifier_token_mint@ {
                    Err(InstructionError::Liquifier(LiquifierError::InvalidLiquifierTokenMint))
                } else if ctx.liquifier_treasury_token_account.owner@ != ctx.liquifier.key@ {
                    Err(InstructionError::Liquifier(LiquifierError::InvalidLiquifierTreasuryTokenAccountOwner))
                } else if ctx.user_token_account.mint@ != ctx.liquifier_token_mint@ {
                    Err(InstructionError::Liquifier(LiquifierError::InvalidLiquifierTokenMint))
                } else if ctx.user_token_account.owner@ != ctx.user@ {
                    Err(InstructionError::Liquifier(LiquifierError::InvalidUserLiquifierTokenAccountOwner))
                } else if ctx.mint_to_be_liquified_user_account.mint@ != ctx.mint_to_be_liquified@ {
                    Err(InstructionError::Liquifier(LiquifierError::InvalidMintToBeLiquified))
                } else if ctx.mint_to_be_liquified_user_account.owner@ != ctx.user@ {
                    Err(InstructionError::Liquifier(LiquifierError::InvalidUserLiquifierTokenAccountOwner))
                } else if ctx.token_metadata_program@ != token_metadata_program() {
                    Err(InstructionError::ConstraintAddress)
                } else {
                    Ok(found.1)
                },
            }
        },
    }
    }
}

impl Liquify {
    /// Checks the account constraints of `liquify`. The seed naming the
    /// liquifier's NFT account is longer than an address-derivation seed may
    /// be, so no address is ever found for it: the check always fails, with
    /// `NoViableBump` once the user has signed.
    pub fn validate(&self, program_id: &Address) -> (r: Result<u8, InstructionError>)
        ensures
            r == accounts_outcome(program_id@, *self),
            r == Err::<u8, _>(
                if self.user_signed { InstructionError::NoViableBump } else { InstructionError::AccountNotSigner },
            ),
    {
        if !self.user_signed {
            return Err(InstructionError::AccountNotSigner);
        }
        proof {
            lemma_liquified_nft_account_seed_too_long();
        }
        let seeds = make_liquified_nft_account_seeds(&self.liquifier.key, &self.mint_to_be_liquified);
        let (pda, bump) = match find_program_address(&seeds, program_id) {
            Some(found) => found,
            None => return Err(InstructionError::NoViableBump),
        };
        assert(seeds_view(seeds@)[0].len() > 32);
        if !self.mint_to_be_liquified_liquifier_account.same_as(&pda) {
            return Err(InstructionError::ConstraintSeeds);
        }
        check_liquifier_account(
            program_id,
            &self.liquifier,
            &self.liquifier_treasury_token_account.key,
            &self.liquifier_token_mint,
            &self.liquifier_collection_mint,
        )?;
        if !self.liquifier_treasury_token_account.mint.same_as(&self.liquifier_token_mint) {
            return Err(InstructionError::Liquifier(LiquifierError::InvalidLiquifierTokenMint));
        }
        if !self.liquifier_treasury_token_account.owner.same_as(&self.liquifier.key) {
            return Err(InstructionError::Liquifier(LiquifierError::InvalidLiquifierTreasuryTokenAccountOwner));
        }
        if !self.user_token_account.mint.same_as(&self.liquifier_token_mint) {
            return Err(InstructionError::Liquifier(LiquifierError::InvalidLiquifierTokenMint));
        }
        if !self.user_token_account.owner.same_as(&self.user) {
            return Err(InstructionError::Liquifier(LiquifierError::InvalidUserLiquifierTokenAccountOwner));
        }
        if !self.mint_to_be_liquified_user_account.mint.same_as(&self.mint_to_be_liquified) {
            return Err(InstructionError::Liquifier(LiquifierError::InvalidMintToBeLiquified));
        }
        if !self.mint_to_be_liquified_user_account.owner.same_as(&self.user) {
            return Err(InstructionError::Liquifier(LiquifierError::InvalidUserLiquifierTokenAccountOwner));
        }
        let metadata_program = token_metadata_program_id();
        if !self.token_metadata_program.same_as(&metadata_program) {
            return Err(InstructionError::ConstraintAddress);
        }
        Ok(bump)
    }
}

/// The calls `liquify` makes: move the NFT from the user to the liquifier,
/// with the user signing, and move `liquification_threshold` tokens from the
/// treasury to the user, with the liquifier account as authority.
pub open spec fn liquify_actions(ctx: Liquify) -> Seq<ActionView> {
    seq![
        ActionView::Transfer {
            from: ctx.mint_to_be_liquified_user_account.key@,
            to: ctx.mint_to_be_liquified_liquifier_account@,
            authority: ctx.user@,
            amount: 1,
        },
        ActionView::Transfer {
            from: ctx.liquifier_treasury_token_account.key@,
            to: ctx.user_token_account.key@,
            authority: ctx.liquifier.key@,
            amount: ctx.liquifier.data.liquification_threshold,
        },
    ]
}

/// The outcome of the checks on the NFT's metadata, in order: it belongs to
/// `mint`, names a collection, the collection is verified, and it is the
/// liquifier's collection.
pub open spec fn nft_metadata_outcome(md: MetadataView, mint: Seq<u8>, collection_mint: Seq<u8>) -> Result<(), LiquifierError> {
    if md.mint != mint {
        Err(LiquifierError::InvalidMintToBeLiquifiedMetadata)
    } else {
        match md.collection {
            None => Err(LiquifierError::NoCollectionDefined),
            Some(collection) => if !collection.verified {
                Err(LiquifierError::UnverifiedCollection)
            } else if collection_mint != collection.key {
                Err(LiquifierError::InvalidCollectionMint)
            } else {
                Ok(())
            },
        }
    }
}

/// Checks the NFT's metadata (see `nft_metadata_outcome`).
pub fn check_nft_metadata(md: &Metadata, mint: &Address, collection_mint: &Address) -> (r: Result<(), LiquifierError>)
    ensures
        r == nft_metadata_outcome(md@, mint@, collection_mint@),
{
    if !md.mint.same_as(mint) {
        return Err(LiquifierError::InvalidMintToBeLiquifiedMetadata);
    }
    let collection = match md.collection {
        Some(collection) => collection,
        None => return Err(LiquifierError::NoCollectionDefined),
    };
    if !collection.verified {
        return Err(LiquifierError::UnverifiedCollection);
    }
    if !collection_mint.same_as(&collection.key) {
        return Err(LiquifierError::InvalidCollectionMint);
    }
    Ok(())
}

/// The outcome of the handler of `liquify`, in the order it checks: the calls
/// to make, or the first failure.
pub open spec fn handler_outcome(ctx: Liquify) -> Result<Seq<ActionView>, InstructionError> {
    let program = token_metadata_program();
    let nft_md = ctx.mint_to_be_liquified_metadata;
    let token_md = ctx.liquifier_token_mint_metadata;
    let collection_md = ctx.liquifier_collection_mint_metadata;
    if metadata_derivation_outcome(nft_md.key@, ctx.mint_to_be_liquified@) is Err {
        Err(metadata_derivation_outcome(nft_md.key@, ctx.mint_to_be_liquified@)->Err_0)
    } else if metadata_derivation_outcome(token_md.key@, ctx.liquifier_token_mint@) is Err {
        Err(metadata_derivation_outcome(token_md.key@, ctx.liquifier_token_mint@)->Err_0)
    } else if metadata_derivation_outcome(collection_md.key@, ctx.liquifier_collection_mint@) is Err {
        Err(metadata_derivation_outcome(collection_md.key@, ctx.liquifier_collection_mint@)->Err_0)
    } else if nft_md.data@.len() == 0 || token_md.data@.len() == 0 || collection_md.data@.len() == 0 {
        Err(InstructionError::Liquifier(LiquifierError::EmptyMetadataAccount))
    } else if nft_md.owner@ != program || token_md.owner@ != program || collection_md.owner@ != program {
        Err(InstructionError::Liquifier(LiquifierError::InvalidMintMetadataOwner))
    } else {
        match spec_deserialize_metadata(nft_md.data@) {
            None => Err(InstructionError::MetadataUnreadable),
            Some(md) => match nft_metadata_outcome(md, ctx.mint_to_be_liquified@, ctx.liquifier.data.liquifier_collection_mint@) {
                Err(e) => Err(InstructionError::Liquifier(e)),
                Ok(()) => Ok(liquify_actions(ctx)),
            },
        }
    }
}

/// Handler of `liquify`: checks the three metadata accounts and the NFT's
/// metadata (its mint, and a verified collection that is the liquifier's),
/// then gives the two transfers that exchange the NFT for tokens. The
/// liquifier's state does not change.
pub fn handler(ctx: &Liquify) -> (r: Result<Vec<Action>, InstructionError>)
    ensures
        match r {
            Ok(actions) => handler_outcome(*ctx) == Ok::<_, InstructionError>(actions_view(actions@)),
            Err(e) => handler_outcome(*ctx) == Err::<Seq<ActionView>, _>(e),
        },
{
    let metadata_program = token_metadata_program_id();
    check_metadata_derivation(&metadata_program, &ctx.mint_to_be_liquified_metadata.key, &ctx.mint_to_be_liquified)?;
    check_metadata_derivation(&metadata_program, &ctx.liquifier_token_mint_metadata.key, &ctx.liquifier_token_mint)?;
    check_metadata_derivation(&metadata_program, &ctx.liquifier_collection_mint_metadata.key, &ctx.liquifier_collection_mint)?;
    if ctx.mint_to_be_liquified_metadata.data.len() == 0 || ctx.liquifier_token_mint_metadata.data.len() == 0
        || ctx.liquifier_collection_mint_metadata.data.len() == 0 {
        return Err(InstructionError::Liquifier(LiquifierError::EmptyMetadataAccount));
    }
    if !ctx.mint_to_be_liquified_metadata.owner.same_as(&metadata_program)
        || !ctx.liquifier_token_mint_metadata.owner.same_as(&metadata_program)
        || !ctx.liquifier_collection_mint_metadata.owner.same_as(&metadata_program) {
        return Err(InstructionError::Liquifier(LiquifierError::InvalidMintMetadataOwner));
    }
    let md = match deserialize_metadata(ctx.mint_to_be_liquified_metadata.data.as_slice()) {
        Some(md) => md,
        None => return Err(InstructionError::MetadataUnreadable),
    };
    if let Err(e) = check_nft_metadata(&md, &ctx.mint_to_be_liquified, &ctx.liquifier.data.liquifier_collection_mint) {
        return Err(InstructionError::Liquifier(e));
    }
    let actions = vec![
        Action::Transfer {
            from: ctx.mint_to_be_liquified_user_account.key,
            to: ctx.mint_to_be_liquified_liquifier_account,
            authority: ctx.user,
            amount: 1,
        },
        Action::Transfer {
            from: ctx.liquifier_treasury_token_account.key,
            to: ctx.user_token_account.key,
            authority: ctx.liquifier.key,
            amount: ctx.liquifier.data.liquification_threshold,
        },
    ];
    assert(actions_view(actions@) =~= liquify_actions(*ctx));
    Ok(actions)
}

} // verus!
