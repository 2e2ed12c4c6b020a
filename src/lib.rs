//! A per-owner custodial vault: derivation of the vault's addresses, the
//! decisions of its four instructions, and a model of one owner's accounts
//! that runs them.
pub mod address;
pub mod derivation;
pub mod instructions;
pub mod ledger;
