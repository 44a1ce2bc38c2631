//! Account checks for a token program's three instructions: a transfer of
//! fungible tokens, the creation of a non-fungible token with its metadata,
//! and the transfer of a non-fungible token. Each instruction's accounts are
//! checked, in a fixed order, and where they pass the library says which calls
//! into the token and metadata programs are to be made.

pub mod accounts;
pub mod error;
pub mod keys;
pub mod nft;
pub mod transfer;
