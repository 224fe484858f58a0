//! Contains generation and definitions for the [`AppService`] and the [`RatingService`].
use vstd::prelude::*;
use crate::features::pb::app::AppServer;

verus! {

/// The general service governing retrieving ratings for the store app.
#[derive(Clone, Copy, Debug, Default)]
pub struct AppService;

/// Builds a new [`AppServer`] using the given [`AppService`] with default parameters.
pub fn build_service() -> (r: AppServer<AppService>)
    ensures
        r.max_decoding_message_size is None,
        r.max_encoding_message_size is None,
{
    let service = AppService;
    AppServer::new(service)
}

/// The general service governing retrieving ratings for the store app.
#[derive(Clone, Copy, Debug, Default)]
pub struct RatingService;

impl RatingService {
    /// The paths which are accessible without authentication, if any.
    pub const PUBLIC_PATHS: [&'static str; 0] = [];

    /// Converts this service into its corresponding server.
    pub fn to_server(self) -> (r: AppServer<RatingService>)
        ensures
            *r.inner == self,
            r.max_decoding_message_size is None,
            r.max_encoding_message_size is None,
    {
        AppServer::new(self)
    }
}

} // verus!
