//! Building a chart from the outcome of reading its vote summaries.
use vstd::prelude::*;
use crate::features::chart::entities::{chart_prefix, is_stable_ranking, Chart, ChartData};
use crate::features::chart::errors::ChartError;
use crate::features::pb::chart::Timeframe;

verus! {

/// The chart over `timeframe`, given the outcome of reading its entries: the entries ranked
/// as [`Chart::new`] ranks them; [`ChartError::NotFound`] when there is no data in the
/// timeframe; [`ChartError::Unknown`] when reading failed.
pub fn get_chart<E>(timeframe: Timeframe, data: Result<Vec<ChartData>, E>) -> (r: Result<Chart, ChartError>)
    ensures
        match data {
            Err(_) => r == Err::<Chart, ChartError>(ChartError::Unknown),
            Ok(d) => if d@.len() == 0 {
                r == Err::<Chart, ChartError>(ChartError::NotFound)
            } else {
                r matches Ok(chart) && chart.timeframe == timeframe
                    && exists|ranked: Seq<ChartData>, order: Seq<int>|
                        is_stable_ranking(d@, ranked, order) && chart.chart_data@ == chart_prefix(ranked)
            },
        },
{
    match data {
        Ok(entries) => {
            if entries.len() == 0 {
                Err(ChartError::NotFound)
            } else {
                Ok(Chart::new(timeframe, entries))
            }
        },
        Err(_e) => Err(ChartError::Unknown),
    }
}

} // verus!
