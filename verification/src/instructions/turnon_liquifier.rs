use vstd::prelude::*;

use crate::accounts::{LiquifierAccount, TokenAccount};
use crate::action::{Action, ActionView, actions_view};
use crate::address::Address;
use crate::constraints::{check_liquifier_account, liquifier_account_outcome};
use crate::error::{InstructionError, LiquifierError};
use crate::metadata::{
    check_metadata_derivation, metadata_derivation_outcome, token_metadata_program,
    token_metadata_program_id,
};
use crate::state::{
    Liquifier, TOKEN_MINT_ADDRESS, COLLECTION_MINT_ADDRESS, assert_collection_mint_address,
    assert_token_mint_address, is_address, liquifier_seeds, make_liquifier_seeds, with_bump,
};

verus! {

/// Arguments of `turnon_liquifier`.
#[derive(Debug)]
pub struct TurnonLiquifierArgs {
    /// Name of the fungible token.
    pub name: String,
    /// Symbol of the fungible token.
    pub symbol: String,
    /// Address of the token's JSON metadata.
    pub uri: String,
    /// Size of the NFT collection; must be the liquifier's.
    pub collection_size: u64,
    /// Number of tokens per NFT; must be the liquifier's.
    pub liquification_threshold: u64,
}

/// Accounts of `turnon_liquifier`.
#[derive(Debug)]
pub struct TurnonLiquifier {
    pub liquifier: LiquifierAccount,
    pub liquifier_treasury_token_account: TokenAccount,
    /// The administrator, who pays and signs.
    pub admin: Address,
    /// Whether the administrator signed the transaction.
    pub admin_signed: bool,
    pub liquifier_token_mint: Address,
    pub liquifier_collection_mint: Address,
    /// The metadata account created for the token mint.
    pub liquifier_token_mint_metadata: Address,
    pub liquifier_collection_mint_metadata: Address,
    pub token_metadata_program: Address,
}

/// The outcome of the account constraints of `turnon_liquifier`, in the
/// order they are checked.
pub open spec fn accounts_outcome(program_id: Seq<u8>, ctx: TurnonLiquifier, ix: TurnonLiquifierArgs) -> Result<(), InstructionError> {
    let state = ctx.liquifier.data;
    if !ctx.admin_signed {
        Err(InstructionError::AccountNotSigner)
    } else {
    match liquifier_account_outcome(
        program_id,
        ctx.liquifier,
        ctx.liquifier_treasury_token_account.key@,
        ctx.liquifier_token_mint@,
        ctx.liquifier_collection_mint@,
    ) {
        Err(e) => Err(e),
        Ok(()) => if state.collection_size != ix.collection_size {
            Err(InstructionError::ConstraintRaw)
        } else if state.liquification_threshold != ix.liquification_threshold {
            Err(InstructionError::ConstraintRaw)
        } else if ctx.liquifier_treasury_token_account.mint@ != ctx.liquifier_token_mint@ {
            Err(InstructionError::Liquifier(LiquifierError::InvalidLiquifierTokenMint))
        } else if ctx.liquifier_treasury_token_account.owner@ != ctx.liquifier.key@ {
            Err(InstructionError::Liquifier(LiquifierError::InvalidLiquifierTreasuryTokenAccountOwner))
        } else if !is_address(TOKEN_MINT_ADDRESS@, ctx.liquifier_token_mint@) {
            Err(InstructionError::ConstraintRaw)
        } else if !is_address(COLLECTION_MINT_ADDRESS@, ctx.liquifier_collection_mint@) {
            Err(InstructionError::ConstraintRaw)
        } else if ctx.token_metadata_program@ != token_metadata_program() {
            Err(InstructionError::ConstraintAddress)
        } else {
            Ok(())
        },
    }
    }
}

impl TurnonLiquifier {
    /// Checks the account constraints of `turnon_liquifier`.
    pub fn validate(&self, program_id: &Address, ix: &TurnonLiquifierArgs) -> (r: Result<(), InstructionError>)
        ensures
            r == accounts_outcome(program_id@, *self, *ix),
    {
        if !self.admin_signed {
            return Err(InstructionError::AccountNotSigner);
        }
        check_liquifier_account(
            program_id,
            &self.liquifier,
            &self.liquifier_treasury_token_account.key,
            &self.liquifier_token_mint,
            &self.liquifier_collection_mint,
        )?;
        if self.liquifier.data.collection_size != ix.collection_size {
            return Err(InstructionError::ConstraintRaw);
        }
        if self.liquifier.data.liquification_threshold != ix.liquification_threshold {
            return Err(InstructionError::ConstraintRaw);
        }
        if !self.liquifier_treasury_token_account.mint.same_as(&self.liquifier_token_mint) {
            return Err(InstructionError::Liquifier(LiquifierError::InvalidLiquifierTokenMint));
        }
        if !self.liquifier_treasury_token_account.owner.same_as(&self.liquifier.key) {
            return Err(InstructionError::Liquifier(LiquifierError::InvalidLiquifierTreasuryTokenAccountOwner));
        }
        if !assert_token_mint_address(&self.liquifier_token_mint) {
            return Err(InstructionError::ConstraintRaw);
        }
        if !assert_collection_mint_address(&self.liquifier_collection_mint) {
            return Err(InstructionError::ConstraintRaw);
        }
        let metadata_program = token_metadata_program_id();
        if !self.token_metadata_program.same_as(&metadata_program) {
            return Err(InstructionError::ConstraintAddress);
        }
        Ok(())
    }
}

/// The seeds with which the liquifier account signs: those of its address
/// and its bump, taken from its state.
pub open spec fn signer_seeds(state: Liquifier) -> Seq<Seq<u8>> {
    liquifier_seeds(state.liquifier_token_mint@, state.liquifier_collection_mint@).push(seq![state.bump])
}

/// Number of tokens the treasury holds once the liquifier is turned on: one
/// `liquification_threshold` per NFT of the collection.
pub open spec fn total_tokens(ix: TurnonLiquifierArgs) -> u128 {
    (ix.collection_size * ix.liquification_threshold) as u128
}

/// The liquifier's state once turned on.
pub open spec fn turned_on_state(state: Liquifier, ix: TurnonLiquifierArgs) -> Liquifier {
    Liquifier {
        max_tokens_liquified: total_tokens(ix),
        liquifier_treasury_token_amount: total_tokens(ix),
        liquified_nfts_count: ix.collection_size,
        ..state
    }
}

/// The calls `turnon_liquifier` makes: create the token mint's metadata with
/// the liquifier as mint and update authority, then mint to the treasury as
/// many tokens as the state's `max_tokens_liquified` held before the call;
/// both signed by the liquifier account.
pub open spec fn turnon_actions(ctx: TurnonLiquifier, ix: TurnonLiquifierArgs) -> Seq<ActionView> {
    let state = ctx.liquifier.data;
    seq![
        ActionView::CreateMetadataAccount {
            metadata: ctx.liquifier_token_mint_metadata@,
            mint: ctx.liquifier_token_mint@,
            mint_authority: ctx.liquifier.key@,
            payer: ctx.admin@,
            update_authority: ctx.liquifier.key@,
            name: ix.name@,
            symbol: ix.symbol@,
            uri: ix.uri@,
            signer_seeds: signer_seeds(state),
        },
        ActionView::MintTo {
            mint: ctx.liquifier_token_mint@,
            to: ctx.liquifier_treasury_token_account.key@,
            authority: ctx.liquifier.key@,
            amount: state.max_tokens_liquified as u64,
            signer_seeds: signer_seeds(state),
        },
    ]
}

/// Whether the token mint's metadata account is the one derived for the mint.
pub open spec fn token_metadata_derived(ctx: TurnonLiquifier) -> bool {
    metadata_derivation_outcome(ctx.liquifier_token_mint_metadata@, ctx.liquifier_token_mint@) is Ok
}

/// The outcome of the handler of `turnon_liquifier`: the new state and the
/// calls to make, or the failure of the metadata account check.
pub open spec fn handler_outcome(ctx: TurnonLiquifier, ix: TurnonLiquifierArgs) -> Result<(Liquifier, Seq<ActionView>), InstructionError> {
    match metadata_derivation_outcome(ctx.liquifier_token_mint_metadata@, ctx.liquifier_token_mint@) {
        Err(e) => Err(e),
        Ok(()) => Ok((turned_on_state(ctx.liquifier.data, ix), turnon_actions(ctx, ix))),
    }
}

/// Handler of `turnon_liquifier`: checks the token mint's metadata account,
/// gives the calls that create the token's metadata and mint the treasury's
/// tokens, and records the collection's token total in the state. On a
/// failure the state is left as it was. The stored maximum must fit in a
/// `u64` where the metadata check passes (the conversion panics otherwise).
pub fn handler(ctx: &mut TurnonLiquifier, ix: TurnonLiquifierArgs) -> (r: Result<Vec<Action>, InstructionError>)
    requires
        token_metadata_derived(*old(ctx)) ==> old(ctx).liquifier.data.max_tokens_liquified <= u64::MAX,
    ensures
        match r {
            Ok(actions) => handler_outcome(*old(ctx), ix) == Ok::<_, InstructionError>((final(ctx).liquifier.data, actions_view(actions@))),
            Err(e) => handler_outcome(*old(ctx), ix) == Err::<(Liquifier, Seq<ActionView>), _>(e)
                && final(ctx).liquifier.data == old(ctx).liquifier.data,
        },
        final(ctx).liquifier.key == old(ctx).liquifier.key,
        final(ctx).liquifier_treasury_token_account == old(ctx).liquifier_treasury_token_account,
        final(ctx).admin == old(ctx).admin,
        final(ctx).admin_signed == old(ctx).admin_signed,
        final(ctx).liquifier_token_mint == old(ctx).liquifier_token_mint,
        final(ctx).liquifier_collection_mint == old(ctx).liquifier_collection_mint,
        final(ctx).liquifier_token_mint_metadata == old(ctx).liquifier_token_mint_metadata,
        final(ctx).liquifier_collection_mint_metadata == old(ctx).liquifier_collection_mint_metadata,
        final(ctx).token_metadata_program == old(ctx).token_metadata_program,
{
    let metadata_program = token_metadata_program_id();
    check_metadata_derivation(&metadata_program, &ctx.liquifier_token_mint_metadata, &ctx.liquifier_token_mint)?;
    let state = ctx.liquifier.data;
    let liquifier_key = ctx.liquifier.key;
    let ghost ix0 = ix;
    let create_metadata = Action::CreateMetadataAccount {
        metadata: ctx.liquifier_token_mint_metadata,
        mint: ctx.liquifier_token_mint,
        mint_authority: liquifier_key,
        payer: ctx.admin,
        update_authority: liquifier_key,
        name: ix.name,
        symbol: ix.symbol,
        uri: ix.uri,
        signer_seeds: with_bump(make_liquifier_seeds(&state.liquifier_token_mint, &state.liquifier_collection_mint), state.bump),
    };
    let total_token_supply = state.max_tokens_liquified as u64;
    let mint_to = Action::MintTo {
        mint: ctx.liquifier_token_mint,
        to: ctx.liquifier_treasury_token_account.key,
        authority: liquifier_key,
        amount: total_token_supply,
        signer_seeds: with_bump(make_liquifier_seeds(&state.liquifier_token_mint, &state.liquifier_collection_mint), state.bump),
    };
    let collection_size = ix.collection_size as u128;
    let threshold = ix.liquification_threshold as u128;
    assert(collection_size * threshold <= u128::MAX) by (nonlinear_arith)
        requires
            collection_size <= u64::MAX,
            threshold <= u64::MAX,
    ;
    let liquifier_treasury_token_amount = collection_size * threshold;
    ctx.liquifier.data.max_tokens_liquified = liquifier_treasury_token_amount;
    ctx.liquifier.data.liquifier_treasury_token_amount = liquifier_treasury_token_amount;
    ctx.liquifier.data.liquified_nfts_count = ix.collection_size;
    let actions = vec![create_metadata, mint_to];
    assert(actions_view(actions@) =~= turnon_actions(*old(ctx), ix0));
    Ok(actions)
}

} // verus!
