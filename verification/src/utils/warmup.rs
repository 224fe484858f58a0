//! Errors of warming up the database, such as setting snap categories.
use vstd::prelude::*;

verus! {

/// Errors that can happen while warming up the database; each outside failure is kept as
/// its message.
#[derive(Clone, Debug)]
pub enum WarmupError {
    /// Errors from the snapd client
    SnapdError(String),
    /// An error that occurred in category updating
    CategoryDBError(String),
    /// An unknown error occurred
    Unknown,
}

impl WarmupError {
    /// The error's message.
    pub fn message(&self) -> (r: String)
        ensures
            self matches WarmupError::SnapdError(m) ==> r@ == "an error occurred when calling snapd: "@ + m@,
            self matches WarmupError::CategoryDBError(m) ==> r@ == "an error occurred with the DB when getting categories: "@ + m@,
            self is Unknown ==> r@ == "an unknown error occurred"@,
    {
        match self {
            WarmupError::SnapdError(m) => {
                let mut s = String::from_str("an error occurred when calling snapd: ");
                s.append(m.as_str());
                s
            },
            WarmupError::CategoryDBError(m) => {
                let mut s = String::from_str("an error occurred with the DB when getting categories: ");
                s.append(m.as_str());
                s
            },
            WarmupError::Unknown => String::from_str("an unknown error occurred"),
        }
    }
}

} // verus!
