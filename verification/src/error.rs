use vstd::prelude::*;

verus! {

/// The program's own errors.
#[derive(Clone, Copy, Debug, PartialEq, Eq, Structural)]
pub enum LiquifierError {
    InvalidParamsForCollection,
    InvalidLiquifierTreasuryTokenAccountOwner,
    InvalidLiquifierTokenMint,
    InvalidMintToBeLiquified,
    InvalidUserLiquifierTokenAccountOwner,
    EmptyMetadataAccount,
    InvalidMintMetadataOwner,
    InvalidCollectionMintMetadata,
    NoCollectionDefined,
    UnverifiedCollection,
    InvalidCollectionMint,
    InvalidLiquifierTreasuryTokenAccountAddress,
    /// Raised by `liquify` when the NFT's metadata names another mint.
    InvalidMintToBeLiquifiedMetadata,
}

impl LiquifierError {
    /// The error's number as the program reports it: the framework's offset
    /// for custom errors, 6000, plus the variant's position.
    pub open spec fn spec_code(self) -> u32 {
        match self {
            LiquifierError::InvalidParamsForCollection => 6000,
            LiquifierError::InvalidLiquifierTreasuryTokenAccountOwner => 6001,
            LiquifierError::InvalidLiquifierTokenMint => 6002,
            LiquifierError::InvalidMintToBeLiquified => 6003,
            LiquifierError::InvalidUserLiquifierTokenAccountOwner => 6004,
            LiquifierError::EmptyMetadataAccount => 6005,
            LiquifierError::InvalidMintMetadataOwner => 6006,
            LiquifierError::InvalidCollectionMintMetadata => 6007,
            LiquifierError::NoCollectionDefined => 6008,
            LiquifierError::UnverifiedCollection => 6009,
            LiquifierError::InvalidCollectionMint => 6010,
            LiquifierError::InvalidLiquifierTreasuryTokenAccountAddress => 6011,
            LiquifierError::InvalidMintToBeLiquifiedMetadata => 6012,
        }
    }

    /// The error's number as the program reports it.
    pub fn code(&self) -> (r: u32)
        ensures
            r == self.spec_code(),
    {
        match self {
            LiquifierError::InvalidParamsForCollection => 6000,
            LiquifierError::InvalidLiquifierTreasuryTokenAccountOwner => 6001,
            LiquifierError::InvalidLiquifierTokenMint => 6002,
            LiquifierError::InvalidMintToBeLiquified => 6003,
            LiquifierError::InvalidUserLiquifierTokenAccountOwner => 6004,
            LiquifierError::EmptyMetadataAccount => 6005,
            LiquifierError::InvalidMintMetadataOwner => 6006,
            LiquifierError::InvalidCollectionMintMetadata => 6007,
            LiquifierError::NoCollectionDefined => 6008,
            LiquifierError::UnverifiedCollection => 6009,
            LiquifierError::InvalidCollectionMint => 6010,
            LiquifierError::InvalidLiquifierTreasuryTokenAccountAddress => 6011,
            LiquifierError::InvalidMintToBeLiquifiedMetadata => 6012,
        }
    }

    /// The error's message.
    pub open spec fn spec_message(self) -> Seq<char> {
        match self {
            LiquifierError::InvalidParamsForCollection => "Invalid parameters for Collection"@,
            LiquifierError::InvalidLiquifierTreasuryTokenAccountOwner => "Invalid Liquifier Treasury TokenAccount Owner"@,
            LiquifierError::InvalidLiquifierTokenMint => "Invalid Liquifier Token Mint"@,
            LiquifierError::InvalidMintToBeLiquified => "Invalid Mint To Be Liquified"@,
            LiquifierError::InvalidUserLiquifierTokenAccountOwner => "Invalid User Liquifier TokenAccount Owner"@,
            LiquifierError::EmptyMetadataAccount => "Empty Metadta Account"@,
            LiquifierError::InvalidMintMetadataOwner => "Invalid Mint Metadata Owner"@,
            LiquifierError::InvalidCollectionMintMetadata => "Invalid Collection Mint Metadata"@,
            LiquifierError::NoCollectionDefined => "No Collection Defined in Metadata"@,
            LiquifierError::UnverifiedCollection => "Unverified Collection in Metadata"@,
            LiquifierError::InvalidCollectionMint => "Invalid Collection Mint in Metadata"@,
            LiquifierError::InvalidLiquifierTreasuryTokenAccountAddress => "Invalid Liquifier Treasury TokenAccount Address"@,
            LiquifierError::InvalidMintToBeLiquifiedMetadata => "InvalidMintToBeLiquifiedMetadata"@,
        }
    }

    /// The error's message.
    pub fn message(&self) -> (r: &'static str)
        ensures
            r@ == self.spec_message(),
    {
        match self {
            LiquifierError::InvalidParamsForCollection => "Invalid parameters for Collection",
            LiquifierError::InvalidLiquifierTreasuryTokenAccountOwner => "Invalid Liquifier Treasury TokenAccount Owner",
            LiquifierError::InvalidLiquifierTokenMint => "Invalid Liquifier Token Mint",
            LiquifierError::InvalidMintToBeLiquified => "Invalid Mint To Be Liquified",
            LiquifierError::InvalidUserLiquifierTokenAccountOwner => "Invalid User Liquifier TokenAccount Owner",
            LiquifierError::EmptyMetadataAccount => "Empty Metadta Account",
            LiquifierError::InvalidMintMetadataOwner => "Invalid Mint Metadata Owner",
            LiquifierError::InvalidCollectionMintMetadata => "Invalid Collection Mint Metadata",
            LiquifierError::NoCollectionDefined => "No Collection Defined in Metadata",
            LiquifierError::UnverifiedCollection => "Unverified Collection in Metadata",
            LiquifierError::InvalidCollectionMint => "Invalid Collection Mint in Metadata",
            LiquifierError::InvalidLiquifierTreasuryTokenAccountAddress => "Invalid Liquifier Treasury TokenAccount Address",
            LiquifierError::InvalidMintToBeLiquifiedMetadata => "InvalidMintToBeLiquifiedMetadata",
        }
    }
}

/// Why an instruction is refused.
#[derive(Clone, Copy, Debug, PartialEq, Eq, Structural)]
pub enum InstructionError {
    /// One of the program's own errors.
    Liquifier(LiquifierError),
    /// An account that must sign the transaction did not (the framework's
    /// `AccountNotSigner`).
    AccountNotSigner,
    /// An account is not the address derived from the seeds its constraint names
    /// (the framework's `ConstraintSeeds`).
    ConstraintSeeds,
    /// A stored address differs from the account passed for it (`ConstraintHasOne`).
    ConstraintHasOne,
    /// A `constraint = ..` expression without its own error is false (`ConstraintRaw`).
    ConstraintRaw,
    /// An account is not at the address its constraint names (`ConstraintAddress`).
    ConstraintAddress,
    /// A metadata account is not the address derived for its mint
    /// (`DerivedKeyInvalid` of the token metadata program).
    DerivedKeyInvalid,
    /// A metadata account's data cannot be read as metadata. The instruction
    /// aborts here: the program gives up with a panic.
    MetadataUnreadable,
    /// No bump seed yields an address for an account's seeds. The instruction
    /// aborts here: the address search panics.
    NoViableBump,
}

} // verus!
