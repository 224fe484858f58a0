//! The service's configuration as read from `APP_`-prefixed environment variables.
use vstd::prelude::*;
use crate::utils::config::{host_and_port, socket_text};

verus! {

/// The service's configuration.
#[derive(Clone, Debug)]
pub struct Config {
    pub env: String,
    pub host: String,
    pub jwt_secret: String,
    pub log_level: String,
    pub name: String,
    pub port: u16,
    pub postgres_uri: String,
}

/// The socket that `config` asks the service to bind: `host:port`.
pub fn get_socket(config: &Config) -> (r: String)
    ensures
        r@ == socket_text(config.host@, config.port),
{
    host_and_port(&config.host, config.port)
}

} // verus!
