//! What other modules share.
pub mod trade_journal;
