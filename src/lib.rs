//! A phased, price-discovering token sale.
//!
//! Buyers hold one adjustable bid each, a clearing price is read off the
//! histogram of bids once supply is fixed, and a lottery bitmap decides the
//! winners among the bids tied at that price.
use vstd::prelude::*;

pub mod error;
pub mod config;
pub mod histogram;
pub mod address;
pub mod sale;
pub mod ticket;
pub mod lottery;
pub mod laws;

verus! {

/// Identity of an account or program in the keyed store.
pub type Key = [u8; 32];

} // verus!
