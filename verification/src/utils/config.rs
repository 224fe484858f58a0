//! Utility functions and definitions for configuring the service.
use vstd::prelude::*;
use crate::utils::text::{decimal, push_decimal};

verus! {

/// Configuration for the general app center ratings backend service.
#[derive(Clone, Debug)]
pub struct Config {
    /// Environment variables to use
    pub env: String,
    /// The host configuration
    pub host: String,
    /// The JWT secret value
    pub jwt_secret: String,
    /// Log level to use
    pub log_level: String,
    /// The service name
    pub name: String,
    /// The port to run on
    pub port: u16,
    /// The URI of the postgres database
    pub postgres_uri: String,
    /// The URI of the migration resource for the DB
    pub migration_postgres_uri: String,
}

/// `host:port`, the port in decimal.
pub open spec fn socket_text(host: Seq<char>, port: u16) -> Seq<char> {
    host + ":"@ + decimal(port as nat)
}

/// Writes `host:port`.
pub fn host_and_port(host: &String, port: u16) -> (r: String)
    ensures
        r@ == socket_text(host@, port),
{
    let mut s = host.clone();
    s.append(":");
    push_decimal(&mut s, port as u64);
    s
}

impl Config {
    /// Return a [`String`] representing the socket to run the service on.
    pub fn socket(&self) -> (r: String)
        ensures
            r@ == socket_text(self.host@, self.port),
    {
        host_and_port(&self.host, self.port)
    }
}

} // verus!
