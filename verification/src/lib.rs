//! Verified core of a cluster bootstrap tool suite: input validators, the
//! genesis configuration builder with its bootstrap accounts, and the
//! mnemonic keypair generator.

pub mod accounts;
pub mod bootstrap;
pub mod decimal;
pub mod economics;
pub mod genesis;
pub mod keygen;
pub mod keys;
pub mod text;
pub mod validators;
