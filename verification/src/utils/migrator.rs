//! Where the database migrations are found.
use vstd::prelude::*;

verus! {

/// The migrations directory used when reverting.
pub const MIGRATIONS_PATH: &'static str = "./sql/migrations";

/// The directory that holds the migrations' directory when no snap provides one.
pub const DEFAULT_SQL_ROOT: &'static str = "./sql";

/// The migrations directory: `migrations` under the snap's directory (the `SNAP`
/// environment variable) when it is set, and under `./sql` else.
pub fn migrations_path(snap: Option<&str>) -> (r: String)
    ensures
        r@ == (match snap {
            Some(dir) => dir@,
            None => DEFAULT_SQL_ROOT@,
        }) + "/migrations"@,
{
    let mut path = match snap {
        Some(dir) => String::from_str(dir),
        None => String::from_str(DEFAULT_SQL_ROOT),
    };
    path.append("/migrations");
    path
}

} // verus!
