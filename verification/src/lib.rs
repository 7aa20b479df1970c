//! The Liquifier program: NFTs of one collection are exchanged ("liquified")
//! for a fixed amount of a fungible token, and back ("deliquified").
//!
//! The library holds the program's rules as verified functions over plain
//! values: the account constraints of each instruction, the instruction
//! handlers' checks and state changes, and the token movements (cross-program
//! calls) that each instruction asks for. Carrying out those calls is left to
//! the code that hosts the program.

pub mod address;
pub mod pda;
pub mod metadata;
pub mod error;
pub mod state;
pub mod action;
pub mod accounts;
pub mod constraints;
pub mod instructions;
pub mod liquifier;
pub mod laws;
