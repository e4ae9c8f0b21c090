//! Issuance of fractional shares of real-world properties to verified
//! identities, and custody of the pooled proceeds.

pub mod accounts;
pub mod actions;
pub mod address;
pub mod errors;
pub mod identity;
pub mod laws;
pub mod ledger;
pub mod model;
pub mod rules;
pub mod state;
pub mod table;
