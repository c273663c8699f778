//! A registry of non-fungible tokens in the custody of one owner account.
//!
//! The [`ledger`] records which tokens exist, who owns each and who is approved
//! to transfer it; the [`approval`] registry of a token hands out approval ids
//! that are never used twice; the transfer [`protocol`] moves a token at once
//! and settles the transfer when the receiver has answered; the [`contract`]
//! puts the ledger behind the one rule that only the owner account mints and
//! transfers. What each operation does is defined on mathematical maps in
//! [`model`], and what follows from that is proved in [`laws`].

pub mod approval;
pub mod contract;
pub mod error;
pub mod laws;
pub mod ledger;
pub mod metadata;
pub mod model;
pub mod protocol;
pub mod string_map;
pub mod token;
