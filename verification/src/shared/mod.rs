//! Value objects shared by every bounded context: dates, money, identifiers
//! and error types.

pub mod clock;
pub mod date;
pub mod errors;
pub mod ids;
pub mod money;
pub mod sharing;
pub mod text;
