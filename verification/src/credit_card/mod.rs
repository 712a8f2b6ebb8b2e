//! Credit cards: cards with a limit, monthly invoices and purchases, paid
//! at once or split into installments over consecutive invoices.

pub mod application;
pub mod domain;
pub mod facade;
