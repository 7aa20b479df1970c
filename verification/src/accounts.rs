use vstd::prelude::*;

use crate::address::Address;
use crate::state::Liquifier;

verus! {

/// A liquifier account: its address and the state it holds.
#[derive(Clone, Copy, Debug)]
pub struct LiquifierAccount {
    pub key: Address,
    pub data: Liquifier,
}

/// A token account: its address and the fields of its state that the
/// program reads.
#[derive(Clone, Copy, Debug)]
pub struct TokenAccount {
    pub key: Address,
    pub mint: Address,
    pub owner: Address,
}

/// An account expected to hold token metadata: its address, its owner
/// program and its raw data.
#[derive(Debug)]
pub struct MetadataAccount {
    pub key: Address,
    pub owner: Address,
    pub data: Vec<u8>,
}

} // verus!
