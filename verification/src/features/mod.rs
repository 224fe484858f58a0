//! The features of the ratings service, one module each.
pub mod admin;
pub mod app;
pub mod chart;
pub mod common;
pub mod pb;
pub mod rating;
pub mod user;
