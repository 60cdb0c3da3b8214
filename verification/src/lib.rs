//! A marketplace where students list secondhand textbooks for sale or for swap,
//! buy listed books with a token, and where a platform fee on each sale is held
//! until the administrator withdraws it.
//!
//! The marketplace state is a plain value ([`market::TextbookExchange`]); every
//! operation either succeeds and returns the token movements that it owes, or
//! fails with a [`types::MarketError`] and leaves the state as it was.

pub mod types;
pub mod market;
pub mod laws;
