//! What is known of a market.
use vstd::prelude::*;

use crate::types::{B256, U256};

verus! {

/// A market and its two tokens.
#[derive(Clone, Debug)]
pub struct MarketInfo {
    pub market_id: B256,
    pub title: String,
    pub crypto_symbol: String,
    pub yes_token_id: U256,
    pub no_token_id: U256,
    /// When the market ends, in nanoseconds since the Unix epoch.
    pub end_date: i64,
}

} // verus!
