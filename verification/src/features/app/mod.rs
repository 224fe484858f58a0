//! The app feature: a snap's rating, computed from its individual votes.
pub mod entities;
pub mod errors;
pub mod interface;
pub mod service;
