//! Importing statements into the ledger: preview (exact duplicates), match
//! candidates (fuzzy matches) and confirm (creation of the transactions).

pub mod application;
pub mod domain;
pub mod facade;
