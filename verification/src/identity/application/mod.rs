//! Use cases of the identity context.

pub mod authenticate;
pub mod create_user;
