//! Helper utilities of the ratings service.
pub mod clock;
pub mod config;
pub mod env;
pub mod jwt;
pub mod migrator;
pub mod text;
pub mod warmup;
