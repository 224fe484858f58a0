//! The rating feature: the services that answer rating requests for the store app.
pub mod service;
