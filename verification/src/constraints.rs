use vstd::prelude::*;

use crate::accounts::LiquifierAccount;
use crate::address::Address;
use crate::error::InstructionError;
use crate::pda::{create_program_address, spec_create_program_address};
use crate::state::{liquifier_seeds, make_liquifier_seeds, with_bump};

verus! {

/// The outcome of the constraints every instruction but `create_liquifier`
/// puts on the liquifier account, in the order they are checked: it is the
/// address derived from `LIQUIFIER_SEED`, the token mint, the collection mint
/// and its stored bump (`ConstraintSeeds`), and its stored treasury, token
/// mint and collection mint are the accounts passed (`ConstraintHasOne`).
pub open spec fn liquifier_account_outcome(
    program_id: Seq<u8>,
    liquifier: LiquifierAccount,
    treasury: Seq<u8>,
    token_mint: Seq<u8>,
    collection_mint: Seq<u8>,
) -> Result<(), InstructionError> {
    match spec_create_program_address(liquifier_seeds(token_mint, collection_mint).push(seq![liquifier.data.bump]), program_id) {
        None => Err(InstructionError::ConstraintSeeds),
        Some(pda) => if liquifier.key@ != pda {
            Err(InstructionError::ConstraintSeeds)
        } else if liquifier.data.liquifier_treasury_token_account@ != treasury {
            Err(InstructionError::ConstraintHasOne)
        } else if liquifier.data.liquifier_token_mint@ != token_mint {
            Err(InstructionError::ConstraintHasOne)
        } else if liquifier.data.liquifier_collection_mint@ != collection_mint {
            Err(InstructionError::ConstraintHasOne)
        } else {
            Ok(())
        },
    }
}

/// Checks the constraints on the liquifier account (see `liquifier_account_outcome`).
pub fn check_liquifier_account(
    program_id: &Address,
    liquifier: &LiquifierAccount,
    treasury: &Address,
    token_mint: &Address,
    collection_mint: &Address,
) -> (r: Result<(), InstructionError>)
    ensures
        r == liquifier_account_outcome(program_id@, *liquifier, treasury@, token_mint@, collection_mint@),
{
    let seeds = with_bump(make_liquifier_seeds(token_mint, collection_mint), liquifier.data.bump);
    let pda = match create_program_address(&seeds, program_id) {
        Some(pda) => pda,
        None => return Err(InstructionError::ConstraintSeeds),
    };
    if !liquifier.key.same_as(&pda) {
        return Err(InstructionError::ConstraintSeeds);
    }
    if !liquifier.data.liquifier_treasury_token_account.same_as(treasury) {
        return Err(InstructionError::ConstraintHasOne);
    }
    if !liquifier.data.liquifier_token_mint.same_as(token_mint) {
        return Err(InstructionError::ConstraintHasOne);
    }
    if !liquifier.data.liquifier_collection_mint.same_as(collection_mint) {
        return Err(InstructionError::ConstraintHasOne);
    }
    Ok(())
}

} // verus!
