//! The service that answers rating requests.
use vstd::prelude::*;
use crate::features::pb::app::AppServer;

verus! {

/// The handler of the app service.
#[derive(Clone, Copy, Debug, Default)]
pub struct AppService;

/// Builds a new [`AppServer`] around an [`AppService`] with default parameters.
pub fn build_service() -> (r: AppServer<AppService>)
    ensures
        r.max_decoding_message_size is None,
        r.max_encoding_message_size is None,
{
    let service = AppService;
    AppServer::new(service)
}

} // verus!
