use vstd::prelude::*;

use crate::accounts::LiquifierAccount;
use crate::action::{Action, ActionView, actions_view};
use crate::address::Address;
use crate::constraints::{check_liquifier_account, liquifier_account_outcome};
use crate::error::InstructionError;
use crate::metadata::{token_metadata_program, token_metadata_program_id};
use crate::pda::{find_program_address, seeds_view, spec_find_program_address};
use crate::state::{
    lemma_liquified_nft_account_seed_too_long, liquified_nft_account_seeds,
    make_liquified_nft_account_seeds,
};

verus! {

/// Accounts of `deliquify`.
#[derive(Debug)]
pub struct Deliquify {
    pub liquifier: LiquifierAccount,
    pub liquifier_treasury_token_account: Address,
    /// The user's account of the fungible token.
    pub user_token_account: Address,
    /// The user, who pays and signs.
    pub user: Address,
    /// Whether the user signed the transaction.
    pub user_signed: bool,
    pub liquifier_token_mint: Address,
    pub liquifier_collection_mint: Address,
    /// The mint of the NFT taken back.
    pub mint_to_be_deliquified: Address,
    /// The user's account for the NFT.
    pub mint_to_be_deliquified_user_account: Address,
    /// The liquifier's account holding the NFT, at the address derived from
    /// `LIQUIFIED_NFT_ACCOUNT_SEED`, the liquifier and the mint.
    pub mint_to_be_deliquified_liquifier_account: Address,
    pub mint_to_be_deliquified_metadata: Address,
    pub token_metadata_program: Address,
}

/// The outcome of the account constraints of `deliquify`, in the order they
/// are checked: the bump seed of the liquifier's NFT account, or the first
/// failure. The account created if needed is handled first.
pub open spec fn accounts_outcome(program_id: Seq<u8>, ctx: Deliquify) -> Result<u8, InstructionError> {
    if !ctx.user_signed {
        Err(InstructionError::AccountNotSigner)
    } else {
    match spec_find_program_address(liquified_nft_account_seeds(ctx.liquifier.key@, ctx.mint_to_be_deliquified@), program_id) {
        None => Err(InstructionError::NoViableBump),
        Some(found) => if ctx.mint_to_be_deliquified_liquifier_account@ != found.0 {
            Err(InstructionError::ConstraintSeeds)
        } else {
            match liquifier_account_outcome(
                program_id,
                ctx.liquifier,
                ctx.liquifier_treasury_token_account@,
                ctx.liquifier_token_mint@,
                ctx.liquifier_collection_mint@,
            ) {
                Err(e) => Err(e),
                Ok(()) => if ctx.token_metadata_program@ != token_metadata_program() {
                    Err(InstructionError::ConstraintAddress)
                } else {
                    Ok(found.1)
                },
            }
        },
    }
    }
}

impl Deliquify {
    /// Checks the account constraints of `deliquify`. As for `liquify`, the
    /// seed naming the liquifier's NFT account is too long for an address
    /// derivation, so the check always fails, with `NoViableBump` once the
    /// user has signed.
    pub fn validate(&self, program_id: &Address) -> (r: Result<u8, InstructionError>)
        ensures
            r == accounts_outcome(program_id@, *self),
            r == Err::<u8, _>(
                if self.user_signed { InstructionError::NoViableBump } else { InstructionError::AccountNotSigner },
            ),
    {
        if !self.user_signed {
            return Err(InstructionError::AccountNotSigner);
        }
        proof {
            lemma_liquified_nft_account_seed_too_long();
        }
        let seeds = make_liquified_nft_account_seeds(&self.liquifier.key, &self.mint_to_be_deliquified);
        let (pda, bump) = match find_program_address(&seeds, program_id) {
            Some(found) => found,
            None => return Err(InstructionError::NoViableBump),
        };
        assert(seeds_view(seeds@)[0].len() > 32);
        if !self.mint_to_be_deliquified_liquifier_account.same_as(&pda) {
            return Err(InstructionError::ConstraintSeeds);
        }
        check_liquifier_account(
            program_id,
            &self.liquifier,
            &self.liquifier_treasury_token_account,
            &self.liquifier_token_mint,
            &self.liquifier_collection_mint,
        )?;
        let metadata_program = token_metadata_program_id();
        if !self.token_metadata_program.same_as(&metadata_program) {
            return Err(InstructionError::ConstraintAddress);
        }
        Ok(bump)
    }
}

/// The calls `deliquify` makes: move the NFT from the liquifier back to the
/// user, with the liquifier account as authority, and move
/// `liquification_threshold` tokens from the user to the treasury, with the
/// user signing.
pub open spec fn deliquify_actions(ctx: Deliquify) -> Seq<ActionView> {
    seq![
        ActionView::Transfer {
            from: ctx.mint_to_be_deliquified_liquifier_account@,
            to: ctx.mint_to_be_deliquified_user_account@,
            authority: ctx.liquifier.key@,
            amount: 1,
        },
        ActionView::Transfer {
            from: ctx.user_token_account@,
            to: ctx.liquifier_treasury_token_account@,
            authority: ctx.user@,
            amount: ctx.liquifier.data.liquification_threshold,
        },
    ]
}

/// Handler of `deliquify`: gives the two transfers that exchange tokens back
/// for the NFT. It checks nothing itself, and the liquifier's state does not
/// change.
pub fn handler(ctx: &Deliquify) -> (r: Vec<Action>)
    ensures
        actions_view(r@) == deliquify_actions(*ctx),
{
    let actions = vec![
        Action::Transfer {
            from: ctx.mint_to_be_deliquified_liquifier_account,
            to: ctx.mint_to_be_deliquified_user_account,
            authority: ctx.liquifier.key,
            amount: 1,
        },
        Action::Transfer {
            from: ctx.user_token_account,
            to: ctx.liquifier_treasury_token_account,
            authority: ctx.user,
            amount: ctx.liquifier.data.liquification_threshold,
        },
    ];
    assert(actions_view(actions@) =~= deliquify_actions(*ctx));
    actions
}

} // verus!
