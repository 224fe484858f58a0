//! Administrative endpoints: the running build's version and the log level.
pub mod api_version;
pub mod log_level;
