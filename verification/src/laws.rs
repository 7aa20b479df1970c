//! Properties that span the program's instructions.

use vstd::prelude::*;

use crate::accounts::LiquifierAccount;
use crate::action::ActionView;
use crate::instructions::deliquify::{Deliquify, deliquify_actions};
use crate::instructions::create_liquifier;
use crate::instructions::create_liquifier::{CreateLiquifier, CreateLiquifierArgs, collection_metadata_acceptable};
use crate::instructions::liquify::{Liquify, liquify_actions, nft_metadata_outcome};
use crate::instructions::turnon_liquifier;
use crate::instructions::turnon_liquifier::{TurnonLiquifier, TurnonLiquifierArgs};
use crate::liquifier::{create_liquifier_outcome, turnon_liquifier_outcome};
use crate::error::LiquifierError;
use crate::metadata::{MetadataView, NON_FUNGIBLE};
use crate::pda::{associated_token_program, associated_token_seeds, spec_find_program_address};
use crate::state::{
    Liquifier, OCUL_PER_SOLOCCULT, SOLOCCULT_COLLECTION_SIZE, TOKEN_MINT_ADDRESS, COLLECTION_MINT_ADDRESS,
    COLLECTION_AUTHORITY_ADDRESS, is_address, liquifier_seeds,
};

verus! {

/// What holds of every liquifier state the program writes: the collection's
/// size and per-NFT token amount are the fixed ones, the maximum and the
/// treasury total agree, and either the liquifier is not yet turned on
/// (nothing counted) or it holds the whole collection's tokens.
pub open spec fn liquifier_invariant(s: Liquifier) -> bool {
    &&& s.collection_size == SOLOCCULT_COLLECTION_SIZE
    &&& s.liquification_threshold == OCUL_PER_SOLOCCULT
    &&& s.max_tokens_liquified == s.liquifier_treasury_token_amount
    &&& {
        ||| s.max_tokens_liquified == 0 && s.liquified_nfts_count == 0
        ||| s.max_tokens_liquified == SOLOCCULT_COLLECTION_SIZE * OCUL_PER_SOLOCCULT
            && s.liquified_nfts_count == SOLOCCULT_COLLECTION_SIZE
    }
}

/// What holds of a liquifier account the program writes: its state meets
/// `liquifier_invariant`, records the account's own address, names as
/// treasury the account's associated token account for the token mint, and
/// the account is the address the search on its seeds finds, with the stored
/// bump the one found.
pub open spec fn liquifier_account_invariant(program_id: Seq<u8>, key: Seq<u8>, s: Liquifier) -> bool {
    &&& liquifier_invariant(s)
    &&& s.liquifier_id@ == key
    &&& spec_find_program_address(liquifier_seeds(s.liquifier_token_mint@, s.liquifier_collection_mint@), program_id)
        == Some((key, s.bump))
    &&& spec_find_program_address(associated_token_seeds(key, s.liquifier_token_mint@), associated_token_program())
        matches Some(found) && found.0 == s.liquifier_treasury_token_account@
}

/// A liquifier created by `create_liquifier` was created with the
/// administrator's signature, meets the account invariant, is not yet turned
/// on, and stores the accounts it was created with: its own address, the
/// treasury, the token mint and the collection mint (the ones the `has_one`
/// constraints of the other instructions then demand).
pub proof fn lemma_create_establishes_invariant(program_id: Seq<u8>, ctx: CreateLiquifier, ix: CreateLiquifierArgs)
    requires
        create_liquifier_outcome(program_id, ctx, ix) is Ok,
    ensures
        ({
            let s = create_liquifier_outcome(program_id, ctx, ix)->Ok_0.0;
            &&& ctx.admin_signed
            &&& liquifier_account_invariant(program_id, ctx.liquifier.key@, s)
            &&& s.max_tokens_liquified == 0
            &&& s.liquifier_id == ctx.liquifier.key
            &&& s.liquifier_treasury_token_account == ctx.liquifier_treasury_token_account
            &&& s.liquifier_token_mint == ctx.liquifier_token_mint
            &&& s.liquifier_collection_mint == ctx.liquifier_collection_mint
        }),
{
}

/// `turnon_liquifier`, applied to a liquifier account that meets the account
/// invariant, keeps it; the state it writes holds the whole collection's
/// tokens, an amount that fits in a `u64` (so a later call's conversion of it
/// cannot panic).
pub proof fn lemma_turnon_preserves_invariant(program_id: Seq<u8>, ctx: TurnonLiquifier, ix: TurnonLiquifierArgs)
    requires
        liquifier_account_invariant(program_id, ctx.liquifier.key@, ctx.liquifier.data),
        turnon_liquifier_outcome(program_id, ctx, ix) is Ok,
    ensures
        ({
            let s = turnon_liquifier_outcome(program_id, ctx, ix)->Ok_0.0;
            &&& liquifier_account_invariant(program_id, ctx.liquifier.key@, s)
            &&& s.max_tokens_liquified == SOLOCCULT_COLLECTION_SIZE * OCUL_PER_SOLOCCULT
            &&& s.liquifier_treasury_token_amount == SOLOCCULT_COLLECTION_SIZE * OCUL_PER_SOLOCCULT
            &&& s.liquified_nfts_count == SOLOCCULT_COLLECTION_SIZE
            &&& s.max_tokens_liquified <= u64::MAX
        }),
{
    assert(SOLOCCULT_COLLECTION_SIZE * OCUL_PER_SOLOCCULT == 10_000_000_000_000);
}

/// A successful `turnon_liquifier` on a liquifier account that meets the
/// account invariant ran on the liquifier at the address the search on the
/// seeds of the token and collection mints passed finds, with the treasury
/// and mints it stores, with arguments matching its collection, and with the
/// fixed token and collection mints.
pub proof fn lemma_turnon_on_canonical_address(program_id: Seq<u8>, ctx: TurnonLiquifier, ix: TurnonLiquifierArgs)
    requires
        liquifier_account_invariant(program_id, ctx.liquifier.key@, ctx.liquifier.data),
        turnon_liquifier_outcome(program_id, ctx, ix) is Ok,
    ensures
        spec_find_program_address(liquifier_seeds(ctx.liquifier_token_mint@, ctx.liquifier_collection_mint@), program_id)
            matches Some(found) && found.0 == ctx.liquifier.key@,
        ctx.liquifier.data.liquifier_treasury_token_account@ == ctx.liquifier_treasury_token_account.key@,
        ctx.liquifier.data.liquifier_token_mint@ == ctx.liquifier_token_mint@,
        ctx.liquifier.data.liquifier_collection_mint@ == ctx.liquifier_collection_mint@,
        ctx.liquifier.data.collection_size == ix.collection_size,
        ctx.liquifier.data.liquification_threshold == ix.liquification_threshold,
        is_address(TOKEN_MINT_ADDRESS@, ctx.liquifier_token_mint@),
        is_address(COLLECTION_MINT_ADDRESS@, ctx.liquifier_collection_mint@),
        ctx.admin_signed,
{
}

/// What a liquifier account written by `create_liquifier` is configured
/// with: its own address, the fixed collection size and per-NFT amount, the
/// associated token account as treasury, and the same maximum and treasury
/// total.
pub open spec fn liquifier_configured(key: Seq<u8>, s: Liquifier) -> bool {
    &&& s.liquifier_id@ == key
    &&& s.collection_size == SOLOCCULT_COLLECTION_SIZE
    &&& s.liquification_threshold == OCUL_PER_SOLOCCULT
    &&& spec_find_program_address(associated_token_seeds(key, s.liquifier_token_mint@), associated_token_program())
        matches Some(found) && found.0 == s.liquifier_treasury_token_account@
    &&& s.max_tokens_liquified == s.liquifier_treasury_token_amount
}

/// `turnon_liquifier` keeps a liquifier configured, whatever its stored
/// maximum, and records the whole collection's tokens as maximum and
/// treasury total, and the collection's size as the count.
pub proof fn lemma_turnon_keeps_configuration(program_id: Seq<u8>, ctx: TurnonLiquifier, ix: TurnonLiquifierArgs)
    requires
        liquifier_configured(ctx.liquifier.key@, ctx.liquifier.data),
        turnon_liquifier_outcome(program_id, ctx, ix) is Ok,
    ensures
        ({
            let s = turnon_liquifier_outcome(program_id, ctx, ix)->Ok_0.0;
            &&& liquifier_configured(ctx.liquifier.key@, s)
            &&& s.max_tokens_liquified == SOLOCCULT_COLLECTION_SIZE * OCUL_PER_SOLOCCULT
            &&& s.liquifier_treasury_token_amount == SOLOCCULT_COLLECTION_SIZE * OCUL_PER_SOLOCCULT
            &&& s.liquified_nfts_count == SOLOCCULT_COLLECTION_SIZE
        }),
{
    assert(SOLOCCULT_COLLECTION_SIZE * OCUL_PER_SOLOCCULT == 10_000_000_000_000);
}

/// A state meeting the invariant meets the condition `turnon_liquifier`
/// puts on the stored maximum.
pub proof fn lemma_invariant_bounds_maximum(s: Liquifier)
    requires
        liquifier_invariant(s),
    ensures
        s.max_tokens_liquified <= u64::MAX,
{
    assert(SOLOCCULT_COLLECTION_SIZE * OCUL_PER_SOLOCCULT == 10_000_000_000_000);
}

/// Turning a liquifier on again, with the same accounts and arguments, is
/// accepted and leaves the state as the first call left it; the second call
/// mints to the treasury, once more, the total the first call recorded.
pub proof fn lemma_turnon_again(program_id: Seq<u8>, ctx: TurnonLiquifier, ix: TurnonLiquifierArgs)
    requires
        turnon_liquifier_outcome(program_id, ctx, ix) is Ok,
    ensures
        ({
            let s1 = turnon_liquifier_outcome(program_id, ctx, ix)->Ok_0.0;
            let again = TurnonLiquifier { liquifier: LiquifierAccount { data: s1, ..ctx.liquifier }, ..ctx };
            &&& turnon_liquifier_outcome(program_id, again, ix) is Ok
            &&& turnon_liquifier_outcome(program_id, again, ix)->Ok_0.0 == s1
            &&& turnon_liquifier_outcome(program_id, again, ix)->Ok_0.1[1] matches ActionView::MintTo { amount, .. }
                && amount == s1.max_tokens_liquified as u64
        }),
{
}

/// Where `from` sends `amount` to `to` in a transfer.
pub open spec fn is_transfer(a: ActionView, from: Seq<u8>, to: Seq<u8>, amount: u64) -> bool {
    a matches ActionView::Transfer { from: f, to: t, amount: n, .. } && f == from && t == to && n == amount
}

/// `deliquify` undoes `liquify`: for the same liquifier, user accounts, NFT
/// accounts and treasury, each of its two transfers moves what the
/// corresponding transfer of `liquify` moved, in the opposite direction: the
/// NFT back to the user, and the per-NFT tokens back to the treasury. The
/// authorities swap with the direction: the NFT comes back with the
/// signature that sent the tokens out (the liquifier's), and the tokens come
/// back with the signature that sent the NFT in (the user's).
pub proof fn lemma_deliquify_reverses_liquify(l: Liquify, d: Deliquify)
    requires
        d.liquifier.key == l.liquifier.key,
        d.liquifier.data == l.liquifier.data,
        d.user == l.user,
        d.user_token_account == l.user_token_account.key,
        d.liquifier_treasury_token_account == l.liquifier_treasury_token_account.key,
        d.mint_to_be_deliquified_user_account == l.mint_to_be_liquified_user_account.key,
        d.mint_to_be_deliquified_liquifier_account == l.mint_to_be_liquified_liquifier_account,
    ensures
        liquify_actions(l).len() == 2,
        deliquify_actions(d).len() == 2,
        forall|i: int, from: Seq<u8>, to: Seq<u8>, amount: u64|
            0 <= i < 2 && #[trigger] is_transfer(liquify_actions(l)[i], from, to, amount)
                ==> is_transfer(deliquify_actions(d)[i], to, from, amount),
        transfer_source_and_authority(deliquify_actions(d)[0]).1 == transfer_source_and_authority(liquify_actions(l)[1]).1,
        transfer_source_and_authority(deliquify_actions(d)[1]).1 == transfer_source_and_authority(liquify_actions(l)[0]).1,
{
}

/// A successful `create_liquifier` asks to create the liquifier's own
/// associated token account for the token mint, paid by the administrator:
/// every associated token account it asks for has the liquifier account as
/// authority and the token mint as mint, and is the treasury stored in the
/// new state, which is the address derived for the liquifier and the token
/// mint. It asks to create the token mint's account, paid by the
/// administrator, and initialises the mint with the requested decimals and
/// the liquifier account as mint and freeze authority.
pub proof fn lemma_create_treasury_belongs_to_liquifier(ctx: CreateLiquifier, ix: CreateLiquifierArgs, bump: u8)
    requires
        create_liquifier::handler_outcome(ctx, ix, bump) is Ok,
    ensures
        ({
            let s = create_liquifier::handler_outcome(ctx, ix, bump)->Ok_0.0;
            let acts = create_liquifier::handler_outcome(ctx, ix, bump)->Ok_0.1;
            &&& acts.contains(ActionView::CreateAssociatedTokenAccount {
                payer: ctx.admin@,
                associated_token: ctx.liquifier_treasury_token_account@,
                authority: ctx.liquifier.key@,
                mint: ctx.liquifier_token_mint@,
            })
            &&& forall|i: int| #![trigger acts[i]] 0 <= i < acts.len() ==> (acts[i] matches
                ActionView::CreateAssociatedTokenAccount { associated_token, authority, mint, .. }
                ==> authority == ctx.liquifier.key@ && mint == ctx.liquifier_token_mint@
                    && associated_token == s.liquifier_treasury_token_account@)
            &&& acts.contains(ActionView::CreateMintAccount { payer: ctx.admin@, mint: ctx.liquifier_token_mint@ })
            &&& acts.contains(ActionView::InitializeMint {
                mint: ctx.liquifier_token_mint@,
                decimals: ix.decimals,
                mint_authority: ctx.liquifier.key@,
                freeze_authority: ctx.liquifier.key@,
            })
            &&& forall|i: int| #![trigger acts[i]] 0 <= i < acts.len() ==> (acts[i] matches
                ActionView::InitializeMint { mint, decimals, mint_authority, freeze_authority }
                ==> mint == ctx.liquifier_token_mint@ && decimals == ix.decimals && mint_authority == ctx.liquifier.key@
                    && freeze_authority == ctx.liquifier.key@)
            &&& spec_find_program_address(
                associated_token_seeds(ctx.liquifier.key@, ctx.liquifier_token_mint@),
                associated_token_program(),
            ) matches Some(ata) && ata.0 == s.liquifier_treasury_token_account@
        }),
{
    let acts = create_liquifier::handler_outcome(ctx, ix, bump)->Ok_0.1;
    assert(acts.len() == 3);
    assert(acts[0] == ActionView::CreateMintAccount { payer: ctx.admin@, mint: ctx.liquifier_token_mint@ });
    assert(acts[1] == ActionView::InitializeMint {
        mint: ctx.liquifier_token_mint@,
        decimals: ix.decimals,
        mint_authority: ctx.liquifier.key@,
        freeze_authority: ctx.liquifier.key@,
    });
    assert(acts[2] == ActionView::CreateAssociatedTokenAccount {
        payer: ctx.admin@,
        associated_token: ctx.liquifier_treasury_token_account@,
        authority: ctx.liquifier.key@,
        mint: ctx.liquifier_token_mint@,
    });
}

/// A successful `turnon_liquifier` asks to create the token mint's metadata
/// with the liquifier account as both mint authority and update authority
/// and the administrator only as payer, and to mint into the treasury, with
/// the liquifier account as authority, as many tokens as the stored maximum
/// held before the call. The liquifier account signs both with the seeds of
/// its address and its stored bump.
pub proof fn lemma_turnon_liquifier_controls_token(ctx: TurnonLiquifier, ix: TurnonLiquifierArgs)
    requires
        turnon_liquifier::handler_outcome(ctx, ix) is Ok,
    ensures
        ({
            let acts = turnon_liquifier::handler_outcome(ctx, ix)->Ok_0.1;
            &&& exists|i: int| 0 <= i < acts.len() && #[trigger] acts[i] is CreateMetadataAccount
            &&& exists|i: int| 0 <= i < acts.len() && #[trigger] acts[i] is MintTo
            &&& forall|i: int| #![trigger acts[i]] 0 <= i < acts.len() ==> (acts[i] matches
                ActionView::CreateMetadataAccount { metadata, mint, mint_authority, payer, update_authority, signer_seeds, .. }
                ==> metadata == ctx.liquifier_token_mint_metadata@ && mint == ctx.liquifier_token_mint@
                    && mint_authority == ctx.liquifier.key@ && update_authority == ctx.liquifier.key@
                    && payer == ctx.admin@ && signer_seeds == liquifier_seeds(
                        ctx.liquifier.data.liquifier_token_mint@,
                        ctx.liquifier.data.liquifier_collection_mint@,
                    ).push(seq![ctx.liquifier.data.bump]))
            &&& forall|i: int| #![trigger acts[i]] 0 <= i < acts.len() ==> (acts[i] matches
                ActionView::MintTo { mint, to, authority, amount, signer_seeds }
                ==> mint == ctx.liquifier_token_mint@ && to == ctx.liquifier_treasury_token_account.key@
                    && authority == ctx.liquifier.key@ && amount == ctx.liquifier.data.max_tokens_liquified as u64
                    && signer_seeds == liquifier_seeds(
                        ctx.liquifier.data.liquifier_token_mint@,
                        ctx.liquifier.data.liquifier_collection_mint@,
                    ).push(seq![ctx.liquifier.data.bump]))
        }),
{
    let acts = turnon_liquifier::handler_outcome(ctx, ix)->Ok_0.1;
    assert(acts.len() == 2);
    assert(acts[0] is CreateMetadataAccount);
    assert(acts[1] is MintTo);
}

/// The collection's metadata is accepted when it lists the verified
/// collection authority among its creators, wherever in the list it stands
/// and whatever the other creators are, provided the rest of it is
/// acceptable.
pub proof fn lemma_collection_authority_creator_anywhere(md: MetadataView, collection_mint: Seq<u8>, i: int)
    requires
        md.mint == collection_mint,
        !md.primary_sale_happened,
        md.token_standard == Some(NON_FUNGIBLE),
        md.seller_fee_basis_points == 0,
        md.collection is None,
        md.creators matches Some(cs) && 0 <= i < cs.len() && is_address(COLLECTION_AUTHORITY_ADDRESS@, cs[i].address)
            && cs[i].verified,
    ensures
        collection_metadata_acceptable(md, collection_mint),
{
    let cs = md.creators->Some_0;
    assert(is_address(COLLECTION_AUTHORITY_ADDRESS@, cs[i].address) && cs[i].verified);
}

/// The collection's metadata is refused when it lists creators and none of
/// them is the verified collection authority.
pub proof fn lemma_collection_creators_without_authority_refused(md: MetadataView, collection_mint: Seq<u8>)
    requires
        md.creators matches Some(cs) && forall|i: int|
            0 <= i < cs.len() ==> !(is_address(COLLECTION_AUTHORITY_ADDRESS@, #[trigger] cs[i].address) && cs[i].verified),
    ensures
        !collection_metadata_acceptable(md, collection_mint),
{
}

/// An NFT's metadata whose mint is the NFT's and whose collection is
/// verified and is the liquifier's collection mint is accepted, whatever
/// its creators, token standard, sale flag or royalties.
pub proof fn lemma_nft_metadata_accepted(md: MetadataView, mint: Seq<u8>, collection_mint: Seq<u8>)
    requires
        md.mint == mint,
        md.collection matches Some(c) && c.verified && c.key == collection_mint,
    ensures
        nft_metadata_outcome(md, mint, collection_mint) == Ok::<(), LiquifierError>(()),
{
}

/// An NFT's metadata is refused, with the first failing reason: when its
/// mint is not the NFT's; when it names no collection; when its collection
/// is not verified; when its collection is not the liquifier's.
pub proof fn lemma_nft_metadata_refusals(md: MetadataView, mint: Seq<u8>, collection_mint: Seq<u8>)
    ensures
        md.mint != mint ==> nft_metadata_outcome(md, mint, collection_mint)
            == Err::<(), _>(LiquifierError::InvalidMintToBeLiquifiedMetadata),
        md.mint == mint && md.collection is None ==> nft_metadata_outcome(md, mint, collection_mint)
            == Err::<(), _>(LiquifierError::NoCollectionDefined),
        md.mint == mint ==> (md.collection matches Some(c) && !c.verified ==> nft_metadata_outcome(
            md,
            mint,
            collection_mint,
        ) == Err::<(), _>(LiquifierError::UnverifiedCollection)),
        md.mint == mint ==> (md.collection matches Some(c) && c.verified && c.key != collection_mint
            ==> nft_metadata_outcome(md, mint, collection_mint) == Err::<(), _>(LiquifierError::InvalidCollectionMint)),
{
}

/// The check of an NFT's metadata reads only its mint and its collection:
/// two metadata that agree on both get the same answer.
pub proof fn lemma_nft_metadata_reads_mint_and_collection(
    md1: MetadataView,
    md2: MetadataView,
    mint: Seq<u8>,
    collection_mint: Seq<u8>,
)
    requires
        md1.mint == md2.mint,
        md1.collection == md2.collection,
    ensures
        nft_metadata_outcome(md1, mint, collection_mint) == nft_metadata_outcome(md2, mint, collection_mint),
{
}

/// The account a transfer draws from, and who authorises it.
pub open spec fn transfer_source_and_authority(a: ActionView) -> (Seq<u8>, Seq<u8>) {
    match a {
        ActionView::Transfer { from, authority, .. } => (from, authority),
        _ => (Seq::empty(), Seq::empty()),
    }
}

/// Each transfer `liquify` asks for is authorised by the owner of the
/// account it draws from: the NFT leaves the user's account with the user's
/// signature, and the tokens leave the treasury with the liquifier's. Where
/// those accounts have the owners the account checks demand, the authority
/// is the recorded owner.
pub proof fn lemma_liquify_transfers_authorised_by_source_owner(l: Liquify)
    ensures
        liquify_actions(l).len() == 2,
        liquify_actions(l).contains(ActionView::Transfer {
            from: l.mint_to_be_liquified_user_account.key@,
            to: l.mint_to_be_liquified_liquifier_account@,
            authority: l.user@,
            amount: 1,
        }),
        liquify_actions(l).contains(ActionView::Transfer {
            from: l.liquifier_treasury_token_account.key@,
            to: l.user_token_account.key@,
            authority: l.liquifier.key@,
            amount: l.liquifier.data.liquification_threshold,
        }),
        l.mint_to_be_liquified_user_account.owner == l.user ==> transfer_source_and_authority(liquify_actions(l)[0])
            == (l.mint_to_be_liquified_user_account.key@, l.mint_to_be_liquified_user_account.owner@),
        l.liquifier_treasury_token_account.owner == l.liquifier.key ==> transfer_source_and_authority(liquify_actions(l)[1])
            == (l.liquifier_treasury_token_account.key@, l.liquifier_treasury_token_account.owner@),
{
    assert(liquify_actions(l)[0] == ActionView::Transfer {
        from: l.mint_to_be_liquified_user_account.key@,
        to: l.mint_to_be_liquified_liquifier_account@,
        authority: l.user@,
        amount: 1,
    });
    assert(liquify_actions(l)[1] == ActionView::Transfer {
        from: l.liquifier_treasury_token_account.key@,
        to: l.user_token_account.key@,
        authority: l.liquifier.key@,
        amount: l.liquifier.data.liquification_threshold,
    });
}

/// Each transfer `deliquify` asks for is authorised by the holder of the
/// account it draws from: the NFT leaves the liquifier's NFT account with the
/// liquifier's signature, and the tokens leave the user's token account with
/// the user's.
pub proof fn lemma_deliquify_transfers_authorised_by_source_owner(d: Deliquify)
    ensures
        deliquify_actions(d).len() == 2,
        deliquify_actions(d).contains(ActionView::Transfer {
            from: d.mint_to_be_deliquified_liquifier_account@,
            to: d.mint_to_be_deliquified_user_account@,
            authority: d.liquifier.key@,
            amount: 1,
        }),
        deliquify_actions(d).contains(ActionView::Transfer {
            from: d.user_token_account@,
            to: d.liquifier_treasury_token_account@,
            authority: d.user@,
            amount: d.liquifier.data.liquification_threshold,
        }),
{
    assert(deliquify_actions(d)[0] == ActionView::Transfer {
        from: d.mint_to_be_deliquified_liquifier_account@,
        to: d.mint_to_be_deliquified_user_account@,
        authority: d.liquifier.key@,
        amount: 1,
    });
    assert(deliquify_actions(d)[1] == ActionView::Transfer {
        from: d.user_token_account@,
        to: d.liquifier_treasury_token_account@,
        authority: d.user@,
        amount: d.liquifier.data.liquification_threshold,
    });
}

} // verus!
