//! Business logic building on top of the database layer: category updates and the
//! snapcraft.io endpoints that snap names and categories come from.
use vstd::prelude::*;

pub mod categories;

verus! {

/// What can go wrong while rating snaps; each outside failure is kept as its message.
#[derive(Clone, Debug)]
pub enum RatingsError {
    /// The database failed.
    Db(String),
    /// The configuration could not be read.
    Envy(String),
    /// A query failed.
    Sqlx(String),
    /// A category name is unknown.
    Strum(String),
    /// A URL could not be formed.
    InvalidUrl(String),
    /// snapcraft.io could not be reached or answered with an error.
    SnapcraftIo(String),
    /// snapcraft.io's answer is not the expected JSON.
    Json(String),
}

impl RatingsError {
    /// The error's message: the outside failure's own message, prefixed with
    /// `invalid url: ` for a URL that could not be formed.
    pub fn message(&self) -> (r: String)
        ensures
            self matches RatingsError::InvalidUrl(m) ==> r@ == "invalid url: "@ + m@,
            !(self is InvalidUrl) ==> r@ == (match self {
                RatingsError::Db(m) => m@,
                RatingsError::Envy(m) => m@,
                RatingsError::Sqlx(m) => m@,
                RatingsError::Strum(m) => m@,
                RatingsError::SnapcraftIo(m) => m@,
                RatingsError::Json(m) => m@,
                RatingsError::InvalidUrl(m) => m@,
            }),
    {
        match self {
            RatingsError::InvalidUrl(m) => {
                let mut s = String::from_str("invalid url: ");
                s.append(m.as_str());
                s
            },
            RatingsError::Db(m) => m.clone(),
            RatingsError::Envy(m) => m.clone(),
            RatingsError::Sqlx(m) => m.clone(),
            RatingsError::Strum(m) => m.clone(),
            RatingsError::SnapcraftIo(m) => m.clone(),
            RatingsError::Json(m) => m.clone(),
        }
    }
}

/// The `User-Agent` header sent to snapcraft.io.
pub const USER_AGENT: &'static str = "ratings-service";
/// The `Snap-Device-Series` header sent to snapcraft.io.
pub const SNAP_DEVICE_SERIES: &'static str = "16";
/// Where a snap's declaration is found, relative to snapcraft.io's API root.
pub const SNAP_DECLARATION_PREFIX: &'static str = "assertions/snap-declaration/16/";
/// Where a snap's information is found, relative to snapcraft.io's API root.
pub const SNAP_INFO_PREFIX: &'static str = "snaps/info/";

/// The path, relative to the API root, of the declaration of `snap_id`, which names the
/// snap.
pub fn snap_declaration_path(snap_id: &str) -> (r: String)
    ensures
        r@ == SNAP_DECLARATION_PREFIX@ + snap_id@,
{
    let mut path = String::from_str(SNAP_DECLARATION_PREFIX);
    path.append(snap_id);
    path
}

/// The path, relative to the API root, of the information on the snap `snap_name`, which
/// lists its categories.
pub fn snap_info_path(snap_name: &str) -> (r: String)
    ensures
        r@ == SNAP_INFO_PREFIX@ + snap_name@,
{
    let mut path = String::from_str(SNAP_INFO_PREFIX);
    path.append(snap_name);
    path
}

} // verus!
