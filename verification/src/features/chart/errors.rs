//! Errors of the chart feature.
use vstd::prelude::*;

verus! {

/// An error that can occur while using the chart service.
#[derive(Clone, Copy, Debug, PartialEq, Eq, Structural)]
pub enum ChartError {
    /// Could not retrieve the chart
    FailedToGetChart,
    /// There was no data in the given timeframe
    NotFound,
    /// Another unknown error (e.g. network failure)
    Unknown,
}

impl ChartError {
    /// The error's message.
    pub fn message(&self) -> (r: &'static str)
        ensures
            *self == ChartError::FailedToGetChart ==> r@ == "failed to get chart for timeframe"@,
            *self == ChartError::NotFound ==> r@ == "could not find data for given timeframe"@,
            *self == ChartError::Unknown ==> r@ == "unknown chart error"@,
    {
        match self {
            ChartError::FailedToGetChart => "failed to get chart for timeframe",
            ChartError::NotFound => "could not find data for given timeframe",
            ChartError::Unknown => "unknown chart error",
        }
    }
}

} // verus!
