//! Compressed memo accounts: signer checks, payload validation, content
//! hashing, address derivation and assembly of the records handed to the
//! state tree.

pub mod account;
pub mod address;
pub mod error;
pub mod hashing;
pub mod laws;
pub mod memo;
pub mod processor;
pub mod signer;
