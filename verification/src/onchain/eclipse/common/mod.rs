//! Keys, tokens and instructions that every program shares.

pub mod constants;
pub mod derive;
pub mod ixs;
pub mod keypair;
pub mod pubkey;
pub mod state;
pub mod token;
pub mod typedefs;
