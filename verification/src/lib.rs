//! The `ratings` library holds the logic of the Ubuntu app center's ratings backend:
//! how votes become a ratings band, how charts are ranked, how requests are checked
//! before they reach the database, and how tokens and claims are formed.
pub mod features;
pub mod grpc;
pub mod jwt;
pub mod middleware;
pub mod proto;
pub mod ratings;
pub mod service;
pub mod status;
pub mod utils;
pub mod vote;
