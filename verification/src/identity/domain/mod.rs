//! The user aggregate, the password hashing port and the errors of the
//! identity context.

pub mod repository;
pub mod user;
