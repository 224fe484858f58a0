//! Build target information for the currently running service.
use vstd::prelude::*;

verus! {

/// The version of this build.
pub const PACKAGE_VERSION: &'static str = "0.1.0";
/// The commit this build was made from.
pub const GIT_HASH: &'static str = "GIT_HASH";
/// The branch this build was made from.
pub const GIT_BRANCH: &'static str = "GIT_BRANCH";

/// The response returning the API Version information.
#[derive(Clone, Debug)]
pub struct ApiVersion {
    /// The current API Version
    pub version: String,
    /// The current commit sha
    pub commit: String,
    /// The current branch
    pub branch: String,
}

impl ApiVersion {
    /// Retrieves the baked-in build info for the current branch state.
    pub fn build_info() -> (r: ApiVersion)
        ensures
            r.version@ == PACKAGE_VERSION@,
            r.commit@ == GIT_HASH@,
            r.branch@ == GIT_BRANCH@,
    {
        ApiVersion {
            version: String::from_str(PACKAGE_VERSION),
            commit: String::from_str(GIT_HASH),
            branch: String::from_str(GIT_BRANCH),
        }
    }
}

impl Default for ApiVersion {
    fn default() -> (r: Self)
        ensures
            r.version@ == PACKAGE_VERSION@,
            r.commit@ == GIT_HASH@,
            r.branch@ == GIT_BRANCH@,
    {
        Self::build_info()
    }
}

/// A response serialized as a JSON blob containing the entire branch state.
#[derive(Clone, Debug)]
pub struct ApiVersionResponse(pub ApiVersion);

impl ApiVersionResponse {
    /// The response that carries `value`.
    pub fn from_version(value: ApiVersion) -> (r: ApiVersionResponse)
        ensures
            r.0 == value,
    {
        ApiVersionResponse(value)
    }
}

/// Essentially a builder for the API route registration.
#[derive(Clone, Copy, Debug)]
pub struct ApiVersionService;

/// The route we want to service.
pub const ROUTE: &'static str = "/admin/api-version";

} // verus!
