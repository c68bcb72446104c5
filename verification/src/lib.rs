//! Cryptographic-agility layer for a TLS implementation: interchangeable
//! streaming hash providers, signing keys with scheme negotiation, and
//! certificate compression codecs, each with exact behavioral contracts.

pub mod compress;
pub mod enums;
pub mod error;
pub mod hash;
pub mod signer;
