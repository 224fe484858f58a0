//! Contains various feature implementations for autenticating users and registering their snap votes.
pub mod entities;
pub mod errors;
pub mod interface;
pub mod service;
