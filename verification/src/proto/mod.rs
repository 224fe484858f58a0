//! The wire messages of the ratings gRPC API in which ratings and votes carry the snap's
//! name.
pub mod app;
pub mod common;
pub mod user;
