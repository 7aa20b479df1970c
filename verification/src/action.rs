use vstd::prelude::*;

use crate::address::Address;
use crate::pda::seeds_view;

verus! {

/// A call into another program (or the framework's account creation) that an
/// instruction asks for. The host carries the calls out in order; the
/// instruction takes effect only if all of them succeed.
#[derive(Debug)]
pub enum Action {
    /// Create the program account `account` at its derived address, signed
    /// with `signer_seeds`, paid by `payer` (the framework's `init`).
    CreateStateAccount { payer: Address, account: Address, signer_seeds: Vec<Vec<u8>> },
    /// Create, unless it exists, the token account `account` of `mint` owned
    /// by `authority`, at the address derived from `signer_seeds`, paid by
    /// `payer` (the framework's `init_if_needed`).
    InitTokenAccountIfNeeded {
        payer: Address,
        account: Address,
        mint: Address,
        authority: Address,
        signer_seeds: Vec<Vec<u8>>,
    },
    /// Create the account `mint` with the size of a mint, owned by the token
    /// program, paid by `payer` (a system program call).
    CreateMintAccount { payer: Address, mint: Address },
    /// Initialise `mint` (token program `initialize_mint`).
    InitializeMint { mint: Address, decimals: u8, mint_authority: Address, freeze_authority: Address },
    /// Create the associated token account of `authority` for `mint`.
    CreateAssociatedTokenAccount {
        payer: Address,
        associated_token: Address,
        authority: Address,
        mint: Address,
    },
    /// Create the metadata account of a mint (token metadata program
    /// `create_metadata_accounts_v3`, without creators, royalties, collection,
    /// uses or collection details; update authority signing; mutable).
    CreateMetadataAccount {
        metadata: Address,
        mint: Address,
        mint_authority: Address,
        payer: Address,
        update_authority: Address,
        name: String,
        symbol: String,
        uri: String,
        signer_seeds: Vec<Vec<u8>>,
    },
    /// Mint `amount` tokens of `mint` to `to` (token program `mint_to`).
    MintTo { mint: Address, to: Address, authority: Address, amount: u64, signer_seeds: Vec<Vec<u8>> },
    /// Move `amount` tokens from `from` to `to` (token program `transfer`),
    /// with `authority` signing the transaction itself.
    Transfer { from: Address, to: Address, authority: Address, amount: u64 },
}

pub enum ActionView {
    CreateStateAccount { payer: Seq<u8>, account: Seq<u8>, signer_seeds: Seq<Seq<u8>> },
    InitTokenAccountIfNeeded {
        payer: Seq<u8>,
        account: Seq<u8>,
        mint: Seq<u8>,
        authority: Seq<u8>,
        signer_seeds: Seq<Seq<u8>>,
    },
    CreateMintAccount { payer: Seq<u8>, mint: Seq<u8> },
    InitializeMint { mint: Seq<u8>, decimals: u8, mint_authority: Seq<u8>, freeze_authority: Seq<u8> },
    CreateAssociatedTokenAccount {
        payer: Seq<u8>,
        associated_token: Seq<u8>,
        authority: Seq<u8>,
        mint: Seq<u8>,
    },
    CreateMetadataAccount {
        metadata: Seq<u8>,
        mint: Seq<u8>,
        mint_authority: Seq<u8>,
        payer: Seq<u8>,
        update_authority: Seq<u8>,
        name: Seq<char>,
        symbol: Seq<char>,
        uri: Seq<char>,
        signer_seeds: Seq<Seq<u8>>,
    },
    MintTo { mint: Seq<u8>, to: Seq<u8>, authority: Seq<u8>, amount: u64, signer_seeds: Seq<Seq<u8>> },
    Transfer { from: Seq<u8>, to: Seq<u8>, authority: Seq<u8>, amount: u64 },
}

impl View for Action {
    type V = ActionView;

    open spec fn view(&self) -> ActionView {
        match self {
            Action::CreateStateAccount { payer, account, signer_seeds } => ActionView::CreateStateAccount {
                payer: payer@,
                account: account@,
                signer_seeds: seeds_view(signer_seeds@),
            },
            Action::InitTokenAccountIfNeeded { payer, account, mint, authority, signer_seeds } =>
                ActionView::InitTokenAccountIfNeeded {
                payer: payer@,
                account: account@,
                mint: mint@,
                authority: authority@,
                signer_seeds: seeds_view(signer_seeds@),
            },
            Action::CreateMintAccount { payer, mint } => ActionView::CreateMintAccount {
                payer: payer@,
                mint: mint@,
            },
            Action::InitializeMint { mint, decimals, mint_authority, freeze_authority } =>
                ActionView::InitializeMint {
                mint: mint@,
                decimals: *decimals,
                mint_authority: mint_authority@,
                freeze_authority: freeze_authority@,
            },
            Action::CreateAssociatedTokenAccount { payer, associated_token, authority, mint } =>
                ActionView::CreateAssociatedTokenAccount {
                payer: payer@,
                associated_token: associated_token@,
                authority: authority@,
                mint: mint@,
            },
            Action::CreateMetadataAccount {
                metadata,
                mint,
                mint_authority,
                payer,
                update_authority,
                name,
                symbol,
                uri,
                signer_seeds,
            } => ActionView::CreateMetadataAccount {
                metadata: metadata@,
                mint: mint@,
                mint_authority: mint_authority@,
                payer: payer@,
                update_authority: update_authority@,
                name: name@,
                symbol: symbol@,
                uri: uri@,
                signer_seeds: seeds_view(signer_seeds@),
            },
            Action::MintTo { mint, to, authority, amount, signer_seeds } => ActionView::MintTo {
                mint: mint@,
                to: to@,
                authority: authority@,
                amount: *amount,
                signer_seeds: seeds_view(signer_seeds@),
            },
            Action::Transfer { from, to, authority, amount } => ActionView::Transfer {
                from: from@,
                to: to@,
                authority: authority@,
                amount: *amount,
            },
        }
    }
}

/// The views of a list of actions.
pub open spec fn actions_view(actions: Seq<Action>) -> Seq<ActionView> {
    actions.map_values(|a: Action| a@)
}

} // verus!
