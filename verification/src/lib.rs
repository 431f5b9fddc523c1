//! A non-fungible token issuer for a ledger-based execution host: three
//! top-level collection tokens, and any number of per-user item tokens each
//! linked to one collection.
//!
//! The crate models the on-chain world explicitly: a [`ledger::Ledger`] value
//! holds the singleton configuration record and the mint, holding-account,
//! metadata and master-edition records that the two creation procedures
//! produce.  Every account address is derived deterministically from seed
//! byte-strings, so a stateless caller can recompute each address off-chain
//! before submitting a transaction.

pub mod addr;
pub mod pda;
pub mod records;
pub mod alist;
pub mod ledger;
pub mod accounts;
pub mod laws;
