//! Genesis state composer for a proof-of-stake, EVM-compatible ledger.
//!
//! The crate derives validator identities from human-readable seeds,
//! deduplicates and endows the initial account set, builds the staker set
//! (validators plus nominators with quota-bounded random nominations),
//! assembles the fixed table of pre-funded EVM accounts, and combines all of
//! it into one genesis document consumed once at network bootstrap.

pub mod account;
pub mod derive;
pub mod document;
pub mod evm;
pub mod identity;
pub mod keys;
pub mod registry;
pub mod stakers;

pub use account::AccountId;
