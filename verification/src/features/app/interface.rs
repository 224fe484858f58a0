//! The decisions of the app service's `GetRating` call: what is checked before the votes
//! are looked up, and what is answered for each outcome of the lookup.
use vstd::prelude::*;
use crate::features::app::errors::AppError;
use crate::features::app::service::AppService;
use crate::features::common::entities::{band_to_pb, Rating};
use crate::features::pb::app::GetRatingResponse;
use crate::features::pb::common::band_number;
use crate::status::{Code, Status};

verus! {

impl AppService {
    /// A rating request must name a snap: an empty snap id is refused as an invalid
    /// argument, and anything else may proceed to the lookup.
    pub fn check_get_rating(snap_id: &String) -> (r: Result<(), Status>)
        ensures
            r is Ok <==> snap_id@.len() > 0,
            r matches Err(s) ==> s.code == Code::InvalidArgument && s.message@ == "snap id"@,
    {
        if snap_id.as_str().unicode_len() == 0 {
            return Err(Status::invalid_argument("snap id"));
        }
        Ok(())
    }

    /// The reply for the lookup's outcome: the rating on success, and an unknown error,
    /// which hides the cause, on failure.
    pub fn get_rating_reply(result: Result<Rating, AppError>) -> (r: Result<GetRatingResponse, Status>)
        ensures
            result is Ok <==> r is Ok,
            r matches Ok(resp) ==> resp.rating matches Some(pr) && result matches Ok(rating) && {
                &&& pr.snap_id@ == rating.snap_id@
                &&& pr.total_votes == rating.total_votes
                &&& pr.ratings_band == band_number(band_to_pb(rating.ratings_band))
            },
            r matches Err(s) ==> s.code == Code::Unknown && s.message@ == "Internal server error"@,
    {
        match result {
            Ok(rating) => Ok(GetRatingResponse { rating: Some(rating.into_protobuf_rating()) }),
            Err(_error) => Err(Status::unknown("Internal server error")),
        }
    }
}

} // verus!
