//! The wire messages and server wrappers of the ratings gRPC API.
//!
//! The service's protocol buffer definitions describe these messages; here they are plain
//! structs that the features fill in, and that the transport layer turns into wire bytes.
pub mod app;
pub mod chart;
pub mod common;
pub mod user;
