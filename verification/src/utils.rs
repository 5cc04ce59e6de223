//! Tokens for signed-in users, and wallet signatures.

pub mod jwt;
pub mod wallet;
