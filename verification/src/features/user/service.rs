//! Definitions and utilities for building the [`UserService`] for handling user data.
use vstd::prelude::*;
use crate::features::pb::user::UserServer;

verus! {

/// An empty struct used to construct a [`UserServer`].
#[derive(Clone, Copy, Debug, Default)]
pub struct UserService;

/// Builds a new [`UserServer`] with default parameters.
pub fn build_service() -> (r: UserServer<UserService>)
    ensures
        r.max_decoding_message_size is None,
        r.max_encoding_message_size is None,
{
    let service = UserService;
    UserServer::new(service)
}

impl UserService {
    /// Converts this service into its corresponding server.
    pub fn to_server(self) -> (r: UserServer<UserService>)
        ensures
            *r.inner == self,
            r.max_decoding_message_size is None,
            r.max_encoding_message_size is None,
    {
        UserServer::new(self)
    }
}

} // verus!
