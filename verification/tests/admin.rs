use ratings::features::admin::api_version::{ApiVersion, ApiVersionResponse, ROUTE};
use ratings::features::admin::log_level::{GetLogLevelResponse, Level, LevelFilter, SetLogLevelRequest};

#[test]
fn build_information() {
    let v = ApiVersion::build_info();
    assert_eq!(v.version, "0.1.0");
    assert_eq!(v.commit, "GIT_HASH");
    assert_eq!(v.branch, "GIT_BRANCH");
    let d = ApiVersion::default();
    assert_eq!(d.commit, "GIT_HASH");
    let r = ApiVersionResponse::from_version(v);
    assert_eq!(r.0.branch, "GIT_BRANCH");
    assert_eq!(ROUTE, "/admin/api-version");
}

#[test]
fn log_levels_round_trip() {
    let all = [Level::Error, Level::Warn, Level::Info, Level::Debug, Level::Trace];
    let filters = [LevelFilter::Error, LevelFilter::Warn, LevelFilter::Info, LevelFilter::Debug, LevelFilter::Trace];
    for (level, filter) in all.iter().zip(filters.iter()) {
        let f = SetLogLevelRequest { level: *level }.level_filter();
        assert_eq!(f, *filter);
        assert_eq!(GetLogLevelResponse::from_filter(f).level, *level);
    }
}
