//! Definitions and utilities for building the [`ChartService`] for using the chart feature.
use vstd::prelude::*;
use crate::features::pb::chart::ChartServer;

verus! {

/// An empty struct that allows the building of a [`ChartServer`].
#[derive(Clone, Copy, Debug, Default)]
pub struct ChartService;

/// Creates a [`ChartServer`] with default parameters from a [`ChartService`].
pub fn build_service() -> (r: ChartServer<ChartService>)
    ensures
        r.max_decoding_message_size is None,
        r.max_encoding_message_size is None,
{
    let service = ChartService;
    ChartServer::new(service)
}

impl ChartService {
    /// The paths which are accessible without authentication, if any.
    pub const PUBLIC_PATHS: [&'static str; 0] = [];

    /// Converts this service into its corresponding server.
    pub fn to_server(self) -> (r: ChartServer<ChartService>)
        ensures
            *r.inner == self,
            r.max_decoding_message_size is None,
            r.max_encoding_message_size is None,
    {
        ChartServer::new(self)
    }
}

} // verus!
