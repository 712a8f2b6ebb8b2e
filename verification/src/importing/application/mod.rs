//! Use cases of the importing context.
//!
//! Each handler holds the ports it works with. The decisions of a use case
//! are verified functions of its module, taking what was read from the
//! ports and returning what is to be written or published.

pub mod access;
pub mod confirm;
pub mod match_candidates;
pub mod preview;
