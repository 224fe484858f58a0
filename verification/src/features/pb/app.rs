//! Messages and server of the app (rating) service.
use vstd::prelude::*;
use std::sync::Arc;
use crate::features::pb::common::Rating;

verus! {

/// The reply to a request for one snap's rating.
pub struct GetRatingResponse {
    pub rating: Option<Rating>,
}

/// The server side of the app service, wrapping the handler that answers its calls.
pub struct AppServer<T> {
    pub inner: Arc<T>,
    pub max_decoding_message_size: Option<usize>,
    pub max_encoding_message_size: Option<usize>,
}

impl<T> AppServer<T> {
    /// Wraps `inner` with no limits on message sizes.
    pub fn new(inner: T) -> (r: Self)
        ensures
            *r.inner == inner,
            r.max_decoding_message_size is None,
            r.max_encoding_message_size is None,
    {
        AppServer { inner: Arc::new(inner), max_decoding_message_size: None, max_encoding_message_size: None }
    }
}

} // verus!
