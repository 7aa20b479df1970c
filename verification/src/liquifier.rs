//! The program's instructions as a whole: for each, the account constraints
//! followed by the handler, with the account creations the constraints ask
//! for placed before the handler's calls.

use vstd::prelude::*;

use crate::action::{Action, ActionView, actions_view};
use crate::address::Address;
use crate::error::InstructionError;
use crate::pda::spec_create_program_address;
use crate::instructions::create_liquifier::{self, CreateLiquifier, CreateLiquifierArgs};
use crate::instructions::deliquify::{self, Deliquify};
use crate::instructions::liquify::{self, Liquify};
use crate::instructions::turnon_liquifier::{self, TurnonLiquifier, TurnonLiquifierArgs};
use crate::state::{
    Liquifier, liquified_nft_account_seeds, liquifier_seeds, make_liquified_nft_account_seeds,
    make_liquifier_seeds, with_bump,
};

verus! {

/// The outcome of `create_liquifier`: the new liquifier's state and the calls
/// to make (creating the liquifier account first), or the first failure.
pub open spec fn create_liquifier_outcome(program_id: Seq<u8>, ctx: CreateLiquifier, ix: CreateLiquifierArgs) -> Result<(Liquifier, Seq<ActionView>), InstructionError> {
    match create_liquifier::accounts_outcome(program_id, ctx) {
        Err(e) => Err(e),
        Ok(bump) => match create_liquifier::handler_outcome(ctx, ix, bump) {
            Err(e) => Err(e),
            Ok((state, actions)) => Ok((
                state,
                seq![
                    ActionView::CreateStateAccount {
                        payer: ctx.admin@,
                        account: ctx.liquifier.key@,
                        signer_seeds: liquifier_seeds(ctx.liquifier_token_mint@, ctx.liquifier_collection_mint@).push(seq![bump]),
                    },
                ] + actions,
            )),
        },
    }
}

/// Creates a liquifier for the collection: checks the accounts and the
/// arguments, fills in the liquifier's state and gives the calls to make.
/// On a failure the state is left as it was.
pub fn create_liquifier(program_id: &Address, ctx: &mut CreateLiquifier, ix: CreateLiquifierArgs) -> (r: Result<Vec<Action>, InstructionError>)
    ensures
        r is Ok ==> spec_create_program_address(
            liquifier_seeds(final(ctx).liquifier.data.liquifier_token_mint@, final(ctx).liquifier.data.liquifier_collection_mint@)
                .push(seq![final(ctx).liquifier.data.bump]),
            program_id@,
        ) == Some(final(ctx).liquifier.key@),
        match r {
            Ok(actions) => create_liquifier_outcome(program_id@, *old(ctx), ix)
                == Ok::<_, InstructionError>((final(ctx).liquifier.data, actions_view(actions@))),
            Err(e) => create_liquifier_outcome(program_id@, *old(ctx), ix) == Err::<(Liquifier, Seq<ActionView>), _>(e)
                && final(ctx).liquifier.data == old(ctx).liquifier.data,
        },
        final(ctx).liquifier.key == old(ctx).liquifier.key,
        final(ctx).admin == old(ctx).admin,
        final(ctx).admin_signed == old(ctx).admin_signed,
        final(ctx).liquifier_treasury_token_account == old(ctx).liquifier_treasury_token_account,
        final(ctx).liquifier_token_mint == old(ctx).liquifier_token_mint,
        final(ctx).liquifier_collection_mint == old(ctx).liquifier_collection_mint,
        final(ctx).liquifier_collection_mint_metadata == old(ctx).liquifier_collection_mint_metadata,
        final(ctx).token_metadata_program == old(ctx).token_metadata_program,
{
    let bump = ctx.validate(program_id)?;
    let seeds = with_bump(make_liquifier_seeds(&ctx.liquifier_token_mint, &ctx.liquifier_collection_mint), bump);
    let mut actions = vec![Action::CreateStateAccount { payer: ctx.admin, account: ctx.liquifier.key, signer_seeds: seeds }];
    let ghost first = actions@;
    assert(actions_view(first) =~= seq![
        ActionView::CreateStateAccount {
            payer: ctx.admin@,
            account: ctx.liquifier.key@,
            signer_seeds: liquifier_seeds(ctx.liquifier_token_mint@, ctx.liquifier_collection_mint@).push(seq![bump]),
        },
    ]);
    let mut handled = create_liquifier::handler(ctx, &ix, bump)?;
    let ghost rest = handled@;
    actions.append(&mut handled);
    assert(actions_view(actions@) =~= actions_view(first) + actions_view(rest));
    Ok(actions)
}

/// The outcome of `turnon_liquifier`: the liquifier's new state and the calls
/// to make, or the first failure.
pub open spec fn turnon_liquifier_outcome(program_id: Seq<u8>, ctx: TurnonLiquifier, ix: TurnonLiquifierArgs) -> Result<(Liquifier, Seq<ActionView>), InstructionError> {
    match turnon_liquifier::accounts_outcome(program_id, ctx, ix) {
        Err(e) => Err(e),
        Ok(()) => turnon_liquifier::handler_outcome(ctx, ix),
    }
}

/// Turns a liquifier on: checks the accounts, gives the calls that create the
/// token's metadata and mint the treasury's tokens, and records the
/// collection's token total. On a failure the state is left as it was. The
/// stored maximum must fit in a `u64` where all checks pass (the conversion
/// panics otherwise).
pub fn turnon_liquifier(program_id: &Address, ctx: &mut TurnonLiquifier, ix: TurnonLiquifierArgs) -> (r: Result<Vec<Action>, InstructionError>)
    requires
        turnon_liquifier::accounts_outcome(program_id@, *old(ctx), ix) is Ok
            && turnon_liquifier::token_metadata_derived(*old(ctx))
            ==> old(ctx).liquifier.data.max_tokens_liquified <= u64::MAX,
    ensures
        match r {
            Ok(actions) => turnon_liquifier_outcome(program_id@, *old(ctx), ix)
                == Ok::<_, InstructionError>((final(ctx).liquifier.data, actions_view(actions@))),
            Err(e) => turnon_liquifier_outcome(program_id@, *old(ctx), ix) == Err::<(Liquifier, Seq<ActionView>), _>(e)
                && final(ctx).liquifier.data == old(ctx).liquifier.data,
        },
        final(ctx).liquifier.key == old(ctx).liquifier.key,
        final(ctx).liquifier_treasury_token_account == old(ctx).liquifier_treasury_token_account,
        final(ctx).admin == old(ctx).admin,
        final(ctx).admin_signed == old(ctx).admin_signed,
        final(ctx).liquifier_token_mint == old(ctx).liquifier_token_mint,
        final(ctx).liquifier_collection_mint == old(ctx).liquifier_collection_mint,
        final(ctx).liquifier_token_mint_metadata == old(ctx).liquifier_token_mint_metadata,
        final(ctx).liquifier_collection_mint_metadata == old(ctx).liquifier_collection_mint_metadata,
        final(ctx).token_metadata_program == old(ctx).token_metadata_program,
{
    ctx.validate(program_id, &ix)?;
    turnon_liquifier::handler(ctx, ix)
}

/// The outcome of `liquify`: the calls to make (creating the liquifier's NFT
/// account if needed first), or the first failure.
pub open spec fn liquify_outcome(program_id: Seq<u8>, ctx: Liquify) -> Result<Seq<ActionView>, InstructionError> {
    match liquify::accounts_outcome(program_id, ctx) {
        Err(e) => Err(e),
        Ok(bump) => match liquify::handler_outcome(ctx) {
            Err(e) => Err(e),
            Ok(actions) => Ok(
                seq![
                    ActionView::InitTokenAccountIfNeeded {
                        payer: ctx.user@,
                        account: ctx.mint_to_be_liquified_liquifier_account@,
                        mint: ctx.mint_to_be_liquified@,
                        authority: ctx.liquifier.key@,
                        signer_seeds: liquified_nft_account_seeds(ctx.liquifier.key@, ctx.mint_to_be_liquified@).push(seq![bump]),
                    },
                ] + actions,
            ),
        },
    }
}

/// Exchanges an NFT of the collection for tokens: checks the accounts and
/// the NFT's metadata, and gives the transfers to make. The liquifier's
/// state does not change. As the program stands, the account checks always
/// fail (see `Liquify::validate`), so the instruction is always refused.
pub fn liquify(program_id: &Address, ctx: &Liquify) -> (r: Result<Vec<Action>, InstructionError>)
    ensures
        match r {
            Ok(actions) => liquify_outcome(program_id@, *ctx) == Ok::<_, InstructionError>(actions_view(actions@)),
            Err(e) => liquify_outcome(program_id@, *ctx) == Err::<Seq<ActionView>, _>(e),
        },
        r == Err::<Vec<Action>, _>(
            if ctx.user_signed { InstructionError::NoViableBump } else { InstructionError::AccountNotSigner },
        ),
{
    let bump = ctx.validate(program_id)?;
    let seeds = with_bump(make_liquified_nft_account_seeds(&ctx.liquifier.key, &ctx.mint_to_be_liquified), bump);
    let mut actions = vec![
        Action::InitTokenAccountIfNeeded {
            payer: ctx.user,
            account: ctx.mint_to_be_liquified_liquifier_account,
            mint: ctx.mint_to_be_liquified,
            authority: ctx.liquifier.key,
            signer_seeds: seeds,
        },
    ];
    let mut handled = liquify::handler(ctx)?;
    let ghost first = actions@;
    let ghost rest = handled@;
    actions.append(&mut handled);
    assert(actions_view(actions@) =~= actions_view(first) + actions_view(rest));
    Ok(actions)
}

/// The outcome of `deliquify`: the calls to make (creating the liquifier's
/// NFT account if needed first), or the first failure.
pub open spec fn deliquify_outcome(program_id: Seq<u8>, ctx: Deliquify) -> Result<Seq<ActionView>, InstructionError> {
    match deliquify::accounts_outcome(program_id, ctx) {
        Err(e) => Err(e),
        Ok(bump) => Ok(
            seq![
                ActionView::InitTokenAccountIfNeeded {
                    payer: ctx.user@,
                    account: ctx.mint_to_be_deliquified_liquifier_account@,
                    mint: ctx.mint_to_be_deliquified@,
                    authority: ctx.liquifier.key@,
                    signer_seeds: liquified_nft_account_seeds(ctx.liquifier.key@, ctx.mint_to_be_deliquified@).push(seq![bump]),
                },
            ] + deliquify::deliquify_actions(ctx),
        ),
    }
}

/// Exchanges tokens back for an NFT: checks the accounts and gives the
/// transfers to make. The liquifier's state does not change. As the program
/// stands, the account checks always fail (see `Deliquify::validate`), so
/// the instruction is always refused.
pub fn deliquify(program_id: &Address, ctx: &Deliquify) -> (r: Result<Vec<Action>, InstructionError>)
    ensures
        match r {
            Ok(actions) => deliquify_outcome(program_id@, *ctx) == Ok::<_, InstructionError>(actions_view(actions@)),
            Err(e) => deliquify_outcome(program_id@, *ctx) == Err::<Seq<ActionView>, _>(e),
        },
        r == Err::<Vec<Action>, _>(
            if ctx.user_signed { InstructionError::NoViableBump } else { InstructionError::AccountNotSigner },
        ),
{
    let bump = ctx.validate(program_id)?;
    let seeds = with_bump(make_liquified_nft_account_seeds(&ctx.liquifier.key, &ctx.mint_to_be_deliquified), bump);
    let mut actions = vec![
        Action::InitTokenAccountIfNeeded {
            payer: ctx.user,
            account: ctx.mint_to_be_deliquified_liquifier_account,
            mint: ctx.mint_to_be_deliquified,
            authority: ctx.liquifier.key,
            signer_seeds: seeds,
        },
    ];
    let mut handled = deliquify::handler(ctx);
    let ghost first = actions@;
    let ghost rest = handled@;
    actions.append(&mut handled);
    assert(actions_view(actions@) =~= actions_view(first) + actions_view(rest));
    Ok(actions)
}

} // verus!
