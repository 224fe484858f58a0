//! The outcome of a failed call, as the gRPC services report it to clients.
use vstd::prelude::*;

verus! {

/// The kinds of failure that the services report.
#[derive(Clone, Copy, Debug, PartialEq, Eq, Structural)]
pub enum Code {
    Unknown,
    InvalidArgument,
    NotFound,
    Internal,
    Unauthenticated,
}

/// A failure reported to the client: its kind and a message.
#[derive(Clone, Debug)]
pub struct Status {
    pub code: Code,
    pub message: String,
}

impl Status {
    /// A failure of the given kind with the given message.
    pub fn new(code: Code, message: &str) -> (r: Status)
        ensures
            r.code == code,
            r.message@ == message@,
    {
        Status { code, message: String::from_str(message) }
    }

    /// The client sent an argument that is not acceptable.
    pub fn invalid_argument(message: &str) -> (r: Status)
        ensures
            r.code == Code::InvalidArgument,
            r.message@ == message@,
    {
        Status::new(Code::InvalidArgument, message)
    }

    /// The failure has no more specific kind.
    pub fn unknown(message: &str) -> (r: Status)
        ensures
            r.code == Code::Unknown,
            r.message@ == message@,
    {
        Status::new(Code::Unknown, message)
    }

    /// What was asked for does not exist.
    pub fn not_found(message: &str) -> (r: Status)
        ensures
            r.code == Code::NotFound,
            r.message@ == message@,
    {
        Status::new(Code::NotFound, message)
    }

    /// The service itself failed.
    pub fn internal(message: &str) -> (r: Status)
        ensures
            r.code == Code::Internal,
            r.message@ == message@,
    {
        Status::new(Code::Internal, message)
    }

    /// The caller could not be authenticated.
    pub fn unauthenticated(message: &str) -> (r: Status)
        ensures
            r.code == Code::Unauthenticated,
            r.message@ == message@,
    {
        Status::new(Code::Unauthenticated, message)
    }
}

} // verus!
