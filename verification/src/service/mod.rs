//! The older service entry point's request checks.
pub mod auth;
