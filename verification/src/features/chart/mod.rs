//! The chart feature: the best rated snaps over a timeframe.
pub mod entities;
pub mod errors;
pub mod infrastructure;
pub mod interface;
pub mod service;
pub mod use_cases;
