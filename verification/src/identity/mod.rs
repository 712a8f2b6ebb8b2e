//! Identity: user accounts and authentication.

pub mod application;
pub mod domain;
