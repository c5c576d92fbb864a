//! Settlement core of a two-party marketplace purchase: a purchase amount is
//! split between the seller and the protocol fee recipient at a fixed fee
//! rate, the fee recipient is checked against the configured identity, and
//! the two transfer legs are driven to an all-or-nothing outcome.

pub mod error;
pub mod split;
pub mod identity;
pub mod executor;
pub mod market;
