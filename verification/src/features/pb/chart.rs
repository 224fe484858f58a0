//! Messages and server of the chart service.
use vstd::prelude::*;
use std::sync::Arc;
use crate::features::pb::common::Rating;

verus! {

/// The span of time over which votes are counted for a chart.
#[derive(Clone, Copy, Debug, PartialEq, Eq, Structural)]
pub enum Timeframe {
    Unspecified,
    Week,
    Month,
}

/// The wire number of a timeframe.
pub open spec fn timeframe_number(timeframe: Timeframe) -> i32 {
    match timeframe {
        Timeframe::Unspecified => 0,
        Timeframe::Week => 1,
        Timeframe::Month => 2,
    }
}

impl Timeframe {
    /// The wire number of this timeframe.
    pub fn to_i32(self) -> (r: i32)
        ensures
            r == timeframe_number(self),
    {
        match self {
            Timeframe::Unspecified => 0,
            Timeframe::Week => 1,
            Timeframe::Month => 2,
        }
    }
}

/// A raw, unbanded rating: the `f32` value of a snap's adjusted positive ratio. It is held
/// by its order key, the `f32`'s bits mapped so that comparing keys as unsigned integers
/// orders the ratings as numbers.
#[derive(Clone, Copy, Debug, PartialEq, Eq, Structural)]
pub struct RawRating {
    pub order_key: u32,
}

/// One entry of a chart as sent to clients.
pub struct ChartData {
    pub raw_rating: RawRating,
    pub rating: Option<Rating>,
}

/// The reply to a request for a chart.
pub struct GetChartResponse {
    pub timeframe: i32,
    pub ordered_chart_data: Vec<ChartData>,
}

/// The server side of the chart service, wrapping the handler that answers its calls.
pub struct ChartServer<T> {
    pub inner: Arc<T>,
    pub max_decoding_message_size: Option<usize>,
    pub max_encoding_message_size: Option<usize>,
}

impl<T> ChartServer<T> {
    /// Wraps `inner` with no limits on message sizes.
    pub fn new(inner: T) -> (r: Self)
        ensures
            *r.inner == inner,
            r.max_decoding_message_size is None,
            r.max_encoding_message_size is None,
    {
        ChartServer { inner: Arc::new(inner), max_decoding_message_size: None, max_encoding_message_size: None }
    }
}

} // verus!
