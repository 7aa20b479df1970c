//! One module per instruction: the accounts it takes, the constraints they
//! must meet, and its handler.

pub mod create_liquifier;
pub mod turnon_liquifier;
pub mod liquify;
pub mod deliquify;
