//! A stand-in price ticker for local development.
//!
//! The library answers the three queries of the two price-index services it
//! imitates: a quote by ticker symbol, the list of known coins, and a market
//! chart by coin id. Prices are a fixed base price times a random factor
//! between nine and eleven tenths. A fault injector can be switched on to
//! fail or delay a share of the requests.

pub mod catalog;
pub mod clock;
pub mod decimal;
pub mod endpoints;
pub mod fault;
pub mod json;
pub mod prices;
pub mod random;
pub mod text;
