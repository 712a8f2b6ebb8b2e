//! The card, invoice and purchase aggregates and their events.

pub mod card;
pub mod events;
pub mod invoice;
pub mod purchase;
