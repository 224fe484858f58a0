//! Messages and server of the user service.
use vstd::prelude::*;
use std::sync::Arc;
use crate::features::pb::common::Timestamp;

verus! {

/// One vote of the calling user, as sent to clients.
pub struct Vote {
    pub snap_id: String,
    pub snap_revision: i32,
    pub vote_up: bool,
    pub timestamp: Option<Timestamp>,
}

/// The reply to a registration: a token for the new user.
pub struct RegisterResponse {
    pub token: String,
}

/// The reply to an authentication: a token for the user.
pub struct AuthenticateResponse {
    pub token: String,
}

/// The server side of the user service, wrapping the handler that answers its calls.
pub struct UserServer<T> {
    pub inner: Arc<T>,
    pub max_decoding_message_size: Option<usize>,
    pub max_encoding_message_size: Option<usize>,
}

impl<T> UserServer<T> {
    /// Wraps `inner` with no limits on message sizes.
    pub fn new(inner: T) -> (r: Self)
        ensures
            *r.inner == inner,
            r.max_decoding_message_size is None,
            r.max_encoding_message_size is None,
    {
        UserServer { inner: Arc::new(inner), max_decoding_message_size: None, max_encoding_message_size: None }
    }
}

} // verus!
