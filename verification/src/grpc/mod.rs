//! The gRPC services of the ratings backend: how replies are assembled, and how the
//! server is secured.
use vstd::prelude::*;
use crate::features::chart::entities::ChartData;
use crate::features::common::entities::{band_to_pb, Rating};
use crate::features::pb::common::band_number;
use crate::proto::common::{ChartData as PbChartData, Rating as PbRating};

pub mod app;
pub mod user;

verus! {

/// How the server accepts connections.
pub enum ServerSecurity {
    /// TLS with the key chain and private key read from these paths.
    Tls { keychain_path: String, key_path: String },
    /// Plain connections.
    Plain,
}

/// How the server is secured: with TLS when both a key chain and a private key are
/// configured, and plainly when neither is. Configuring only one of them is refused
/// before this is asked.
pub fn server_security(keychain_path: Option<String>, key_path: Option<String>) -> (r: ServerSecurity)
    requires
        keychain_path is Some <==> key_path is Some,
    ensures
        keychain_path is None ==> r is Plain,
        keychain_path matches Some(c) ==> (r matches ServerSecurity::Tls { keychain_path: rc, key_path: rk }
            && rc@ == c@ && rk@ == key_path.unwrap()@),
{
    match (keychain_path, key_path) {
        (Some(keychain_path), Some(key_path)) => ServerSecurity::Tls { keychain_path, key_path },
        _ => ServerSecurity::Plain,
    }
}

/// `p` is the wire form of `rating`, named `snap_name`.
pub open spec fn is_named_rating(p: PbRating, rating: Rating, snap_name: Seq<char>) -> bool {
    &&& p.snap_id@ == rating.snap_id@
    &&& p.total_votes == rating.total_votes
    &&& p.ratings_band == band_number(band_to_pb(rating.ratings_band))
    &&& p.snap_name@ == snap_name
}

impl PbRating {
    /// The wire form of a rating, with the snap's name.
    pub fn from_rating_and_snap_name(rating: Rating, snap_name: String) -> (r: Self)
        ensures
            is_named_rating(r, rating, snap_name@),
    {
        PbRating {
            snap_id: rating.snap_id,
            total_votes: rating.total_votes,
            ratings_band: rating.ratings_band.to_pb().to_i32(),
            snap_name,
        }
    }
}

impl PbChartData {
    /// The wire form of a chart entry, with the snap's name.
    pub fn from_chart_data_and_snap_name(chart_data: ChartData, snap_name: String) -> (r: Self)
        ensures
            r.raw_rating == chart_data.raw_rating,
            r.rating matches Some(p) && is_named_rating(p, chart_data.rating, snap_name@),
    {
        PbChartData {
            raw_rating: chart_data.raw_rating,
            rating: Some(PbRating::from_rating_and_snap_name(chart_data.rating, snap_name)),
        }
    }
}

} // verus!
