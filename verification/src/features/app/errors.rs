//! Errors of the app feature.
use vstd::prelude::*;

verus! {

/// Why a rating could not be produced.
#[derive(Clone, Copy, Debug, PartialEq, Eq, Structural)]
pub enum AppError {
    /// The rating could not be fetched.
    FailedToGetRating,
    /// Anything else went wrong.
    Unknown,
}

impl AppError {
    /// The error's message.
    pub fn message(&self) -> (r: &'static str)
        ensures
            *self == AppError::FailedToGetRating ==> r@ == "failed to get rating for snap"@,
            *self == AppError::Unknown ==> r@ == "unknown user error"@,
    {
        match self {
            AppError::FailedToGetRating => "failed to get rating for snap",
            AppError::Unknown => "unknown user error",
        }
    }
}

} // verus!
