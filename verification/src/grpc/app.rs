//! The decisions of the rating service: which requests are accepted, and what is
//! answered for each outcome of looking up votes and snap names.
use vstd::prelude::*;
use std::sync::Arc;
use crate::features::chart::entities::ChartData;
use crate::features::common::entities::Rating;
use crate::features::pb::app::AppServer;
use crate::features::pb::chart::Timeframe;
use crate::grpc::is_named_rating;
use crate::proto::common::{ChartData as PbChartData, Rating as PbRating};
use crate::proto::app::GetRatingResponse;
use crate::status::{Code, Status};
use crate::utils::text::{decimal, push_decimal};

verus! {

/// The most snaps one bulk request may ask for.
pub const MAX_IDS: usize = 250;

/// The timeframe over which bulk ratings are counted.
pub const BULK_TIMEFRAME: Timeframe = Timeframe::Month;

/// The general service governing retrieving ratings for the store app, over the
/// service's shared context.
pub struct RatingService<C> {
    pub ctx: Arc<C>,
}

impl<C> RatingService<C> {
    /// The server that answers rating requests with the given context.
    pub fn new_server(ctx: Arc<C>) -> (r: AppServer<RatingService<C>>)
        ensures
            r.inner.ctx == ctx,
            r.max_decoding_message_size is None,
            r.max_encoding_message_size is None,
    {
        AppServer::new(RatingService { ctx })
    }
}

/// The message refusing a bulk request for too many snaps.
pub open spec fn too_many_ids_message() -> Seq<char> {
    "Too many snap_ids requested. The maximum is "@ + decimal(MAX_IDS as nat)
}

/// A rating request must name a snap: an empty snap id is refused as an invalid
/// argument.
pub fn check_get_rating(snap_id: &String) -> (r: Result<(), Status>)
    ensures
        r is Ok <==> snap_id@.len() > 0,
        r matches Err(s) ==> s.code == Code::InvalidArgument && s.message@ == "snap id"@,
{
    if snap_id.as_str().is_empty() {
        return Err(Status::invalid_argument("snap id"));
    }
    Ok(())
}

/// The reply to a rating request, given the votes' lookup and the snap name's lookup:
/// the named rating when both succeed, and an unknown error, which hides the cause, else.
pub fn get_rating_reply<E, F>(rating: Result<Rating, E>, snap_name: Result<String, F>) -> (r: Result<GetRatingResponse, Status>)
    ensures
        r is Ok <==> rating is Ok && snap_name is Ok,
        r matches Ok(resp) ==> resp.rating matches Some(p) && rating matches Ok(rt) && snap_name matches Ok(n)
            && is_named_rating(p, rt, n@),
        r matches Err(s) ==> s.code == Code::Unknown && s.message@ == "Internal server error"@,
{
    match rating {
        Ok(rating) => match snap_name {
            Ok(snap_name) => Ok(GetRatingResponse { rating: Some(PbRating::from_rating_and_snap_name(rating, snap_name)) }),
            Err(_e) => Err(Status::unknown("Internal server error")),
        },
        Err(_e) => Err(Status::unknown("Internal server error")),
    }
}

/// A bulk request must name at least one snap and at most [`MAX_IDS`]; either failure is
/// refused as an invalid argument that says which.
pub fn check_get_bulk_ratings(snap_ids: &Vec<String>) -> (r: Result<(), Status>)
    ensures
        r is Ok <==> 0 < snap_ids@.len() <= MAX_IDS,
        snap_ids@.len() == 0 ==> (r matches Err(s) && s.code == Code::InvalidArgument
            && s.message@ == "snap_ids cannot be empty"@),
        snap_ids@.len() > MAX_IDS ==> (r matches Err(s) && s.code == Code::InvalidArgument
            && s.message@ == too_many_ids_message()),
{
    if snap_ids.len() == 0 {
        return Err(Status::invalid_argument("snap_ids cannot be empty"));
    }
    if snap_ids.len() > MAX_IDS {
        let mut message = String::from_str("Too many snap_ids requested. The maximum is ");
        push_decimal(&mut message, MAX_IDS as u64);
        return Err(Status { code: Code::InvalidArgument, message });
    }
    Ok(())
}

/// The chart entries of a bulk reply, each with its snap's name, given for each entry the
/// lookup of that name: every entry in order, named, when all lookups succeed; an unknown
/// error, which hides the cause, when any fails.
pub fn populate_chart_data_with_names<F>(entries: Vec<(ChartData, Result<String, F>)>) -> (r: Result<Vec<PbChartData>, Status>)
    ensures
        r is Ok <==> forall|i: int| 0 <= i < entries@.len() ==> (#[trigger] entries@[i]).1 is Ok,
        r matches Ok(named) ==> named@.len() == entries@.len()
            && forall|i: int| 0 <= i < entries@.len() ==> {
                let (d, n) = #[trigger] entries@[i];
                &&& named@[i].raw_rating == d.raw_rating
                &&& named@[i].rating matches Some(p) && is_named_rating(p, d.rating, n->Ok_0@)
            },
        r matches Err(s) ==> s.code == Code::Unknown && s.message@ == "Internal server error"@,
{
    let ghost all = entries@;
    let mut items = entries;
    let n = items.len();
    let mut named: Vec<PbChartData> = Vec::new();
    let mut i: usize = 0;
    while i < n
        invariant
            all == entries@,
            n == all.len(),
            i <= n,
            items@ == all.skip(i as int),
            named@.len() == i,
            forall|k: int| 0 <= k < i ==> (#[trigger] all[k]).1 is Ok,
            forall|k: int| 0 <= k < i ==> {
                &&& (#[trigger] named@[k]).raw_rating == all[k].0.raw_rating
                &&& named@[k].rating matches Some(p) && is_named_rating(p, all[k].0.rating, all[k].1->Ok_0@)
            },
        decreases n - i,
    {
        let (entry, name) = items.remove(0);
        assert(all[i as int] == (entry, name));
        assert(items@ =~= all.skip(i as int + 1));
        match name {
            Ok(snap_name) => {
                named.push(PbChartData::from_chart_data_and_snap_name(entry, snap_name));
                i = i + 1;
            },
            Err(_e) => {
                assert(!((all[i as int]).1 is Ok));
                assert(!(entries@[i as int].1 is Ok));
                return Err(Status::unknown("Internal server error"));
            },
        }
    }
    Ok(named)
}

} // verus!
