//! Providers of values that come from outside the domain.

pub mod id;
