//! The decisions of the chart service's `GetChart` call: which timeframe a request names,
//! and what is answered for each outcome of building the chart.
use vstd::prelude::*;
use crate::features::chart::entities::{is_dto_of, lemma_dto_carries_entry, Chart, ChartData};
use crate::features::chart::errors::ChartError;
use crate::features::chart::service::ChartService;
use crate::features::pb::chart as pb;
use crate::features::pb::chart::{timeframe_number, Timeframe};
use crate::status::{Code, Status};

verus! {

/// The timeframe a request's wire number names: 1 a week, 2 a month, and anything else
/// no particular timeframe.
pub open spec fn requested_timeframe(value: i32) -> Timeframe {
    if value == 1 {
        Timeframe::Week
    } else if value == 2 {
        Timeframe::Month
    } else {
        Timeframe::Unspecified
    }
}

/// A chart reply names the timeframe its request asked for: a request for a week (1) or a
/// month (2) is answered with the same number, and any other number with 0, no particular
/// timeframe; and the week and month restrict the votes of the last week and month.
pub proof fn lemma_reply_names_requested_timeframe(value: i32)
    ensures
        (value == 1 || value == 2) ==> timeframe_number(requested_timeframe(value)) == value,
        !(value == 1 || value == 2) ==> timeframe_number(requested_timeframe(value)) == 0,
        value == 1 ==> requested_timeframe(value) == Timeframe::Week,
        value == 2 ==> requested_timeframe(value) == Timeframe::Month,
{
}

impl ChartService {
    /// The timeframe that a chart request asks for.
    pub fn get_chart_timeframe(timeframe: i32) -> (r: Timeframe)
        ensures
            r == requested_timeframe(timeframe),
    {
        match timeframe {
            0 => Timeframe::Unspecified,
            1 => Timeframe::Week,
            2 => Timeframe::Month,
            _ => Timeframe::Unspecified,
        }
    }

    /// The reply for the outcome of building the chart: its entries in order on success;
    /// "not found" when there was no data; an unknown error, which hides the cause, else.
    pub fn get_chart_reply(timeframe: Timeframe, result: Result<Chart, ChartError>) -> (r: Result<pb::GetChartResponse, Status>)
        ensures
            result is Ok <==> r is Ok,
            r matches Ok(resp) ==> result matches Ok(chart) && {
                &&& resp.timeframe == timeframe_number(timeframe)
                &&& resp.ordered_chart_data@.len() == chart.chart_data@.len()
                &&& forall|i: int| 0 <= i < resp.ordered_chart_data@.len() ==>
                    is_dto_of(#[trigger] resp.ordered_chart_data@[i], chart.chart_data@[i])
                &&& forall|i: int| 0 <= i < resp.ordered_chart_data@.len() ==> {
                    &&& (#[trigger] resp.ordered_chart_data@[i]).raw_rating == chart.chart_data@[i].raw_rating
                    &&& resp.ordered_chart_data@[i].rating matches Some(pr)
                    &&& pr.snap_id@ == chart.chart_data@[i].rating.snap_id@
                    &&& pr.total_votes == chart.chart_data@[i].rating.total_votes
                }
            },
            r matches Err(s) ==> result matches Err(e) && (if e == ChartError::NotFound {
                s.code == Code::NotFound && s.message@ == "Cannot find data for given timeframe."@
            } else {
                s.code == Code::Unknown && s.message@ == "Internal server error"@
            }),
    {
        match result {
            Ok(chart) => {
                let ghost data = chart.chart_data@;
                let mut source: Vec<ChartData> = chart.chart_data;
                let mut reversed: Vec<pb::ChartData> = Vec::new();
                while source.len() > 0
                    invariant
                        source@ == data.take(source@.len() as int),
                        source@.len() + reversed@.len() == data.len(),
                        forall|i: int| 0 <= i < reversed@.len() ==>
                            is_dto_of(#[trigger] reversed@[i], data[data.len() - 1 - i]),
                    decreases source@.len(),
                {
                    let item = source.pop().unwrap();
                    reversed.push(item.into_dto());
                }
                let mut ordered_chart_data: Vec<pb::ChartData> = Vec::new();
                while reversed.len() > 0
                    invariant
                        reversed@.len() + ordered_chart_data@.len() == data.len(),
                        forall|i: int| 0 <= i < reversed@.len() ==>
                            is_dto_of(#[trigger] reversed@[i], data[data.len() - 1 - i]),
                        forall|i: int| 0 <= i < ordered_chart_data@.len() ==>
                            is_dto_of(#[trigger] ordered_chart_data@[i], data[i]),
                    decreases reversed@.len(),
                {
                    let item = reversed.pop().unwrap();
                    ordered_chart_data.push(item);
                }
                assert forall|i: int| 0 <= i < ordered_chart_data@.len() implies {
                    &&& (#[trigger] ordered_chart_data@[i]).raw_rating == data[i].raw_rating
                    &&& ordered_chart_data@[i].rating matches Some(pr)
                    &&& pr.snap_id@ == data[i].rating.snap_id@
                    &&& pr.total_votes == data[i].rating.total_votes
                } by {
                    lemma_dto_carries_entry(ordered_chart_data@[i], data[i]);
                }
                Ok(pb::GetChartResponse { timeframe: timeframe.to_i32(), ordered_chart_data })
            },
            Err(error) => match error {
                ChartError::NotFound => Err(Status::not_found("Cannot find data for given timeframe.")),
                _ => Err(Status::unknown("Internal server error")),
            },
        }
    }
}

} // verus!
