//! Limits on what is held, and the watch over what is left of a pair.
pub mod exposure_laws;
pub mod hedge_laws;
pub mod hedge_map;
pub mod hedge_monitor;
pub mod ledger;
pub mod positions;
pub mod recovery;
pub mod token_amounts;
pub mod tracker_laws;
pub mod watch_laws;
