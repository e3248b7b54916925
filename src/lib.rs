//! Market-signal analysis: volume aggregation, whale detection, flow-balance
//! trends and keyword-driven pattern and trend classification.

pub mod text;
pub mod market;
pub mod ai;
pub mod sampling;
pub mod api;
pub mod analytics;
pub mod chain;
pub mod config;
pub mod logging;
