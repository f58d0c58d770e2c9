//! A transfer hook for a token ledger, with its logic verified.
//!
//! Registration stores, at an address derived from the governed mint, the ordered list of
//! extra accounts that every hook invocation needs. Each invocation re-derives the same
//! addresses and mints one counter token to the transfer's owner, signed by a program
//! address that only a checked derivation can vouch for.

pub mod address;
pub mod derivation;
pub mod error;
pub mod instruction;
pub mod meta_list;
pub mod processor;
pub mod state;
