//! Verified helpers that a governance program uses to work with SPL Token
//! accounts and mints: validation of token account and mint data, cheap
//! field readers, and the planning of the cross-program invocations that
//! create, transfer, mint, burn and re-authorise tokens.

pub mod keys;
pub mod error;
pub mod account;
pub mod instruction;
pub mod address;
pub mod cpi;
