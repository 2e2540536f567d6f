//! Orders on the exchange.
pub mod executor;
pub mod pair_laws;
