//! The decisions of a trading bot for five-minute binary markets.
pub mod config;
pub mod config_laws;
pub mod decimal;
pub mod engine;
pub mod engine_laws;
pub mod launcher;
pub mod launcher_laws;
pub mod license_laws;
pub mod license_tool;
pub mod market;
pub mod merge;
pub mod merge_laws;
pub mod monitor;
pub mod positions;
pub mod report_laws;
pub mod reports;
pub mod risk;
pub mod strategy;
pub mod text;
pub mod text_laws;
pub mod time;
pub mod time_laws;
pub mod trading;
pub mod trial;
pub mod types;
pub mod utils;
pub mod wind_down;
pub mod wind_down_laws;
