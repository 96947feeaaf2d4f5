//! A pay-to-create gate for agent creators: a metadata record fixes the
//! token, the collector account and the price, and every creation moves that
//! price from the buyer's token account to the collector.
pub mod error;
pub mod keys;
pub mod token;
pub mod program;
pub mod laws;
