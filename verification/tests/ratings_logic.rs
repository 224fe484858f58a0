use ratings::ratings::categories::{CategoryStep, CategoryUpdates};
use ratings::ratings::{snap_declaration_path, snap_info_path, RatingsError};
use ratings::utils::warmup::WarmupError;
use ratings::vote::{process_vote, vote};

#[test]
fn one_category_update_at_a_time() {
    let mut updates: CategoryUpdates<u32> = CategoryUpdates::new();
    assert!(updates.in_progress("a").is_none());
    updates.start("a", 1);
    assert_eq!(updates.in_progress("a"), Some(&1));
    assert!(updates.in_progress("b").is_none());
    updates.start("b", 2);
    assert_eq!(updates.finish("a"), Some(1));
    assert!(updates.in_progress("a").is_none());
    assert_eq!(updates.in_progress("b"), Some(&2));
    assert_eq!(updates.finish("a"), None);
    updates.start("a", 3);
    assert_eq!(updates.in_progress("a"), Some(&3));
}

#[test]
fn snapcraft_paths() {
    assert_eq!(snap_declaration_path("NeoQngJVBf2wKC48bxnF2xqmfEFGdVnx"), "assertions/snap-declaration/16/NeoQngJVBf2wKC48bxnF2xqmfEFGdVnx");
    assert_eq!(snap_info_path("steam"), "snaps/info/steam");
}

#[test]
fn error_messages() {
    assert_eq!(RatingsError::InvalidUrl("bad".to_string()).message(), "invalid url: bad");
    assert_eq!(RatingsError::Json("eof".to_string()).message(), "eof");
    assert_eq!(WarmupError::SnapdError("x".to_string()).message(), "an error occurred when calling snapd: x");
    assert_eq!(WarmupError::CategoryDBError("y".to_string()).message(), "an error occurred with the DB when getting categories: y");
    assert_eq!(WarmupError::Unknown.message(), "an unknown error occurred");
}

#[test]
fn placeholder_vote() {
    assert_eq!(process_vote(), "id-1");
    assert_eq!(vote(), "id-1");
}

#[test]
fn category_update_steps() {
    let mut updates: CategoryUpdates<u32> = CategoryUpdates::new();
    assert_eq!(updates.begin("a", true, 9), CategoryStep::Skip);
    assert!(updates.in_progress("a").is_none());
    assert_eq!(updates.begin("a", false, 1), CategoryStep::Update);
    assert_eq!(updates.in_progress("a"), Some(&1));
    assert_eq!(updates.begin("a", false, 2), CategoryStep::Wait);
    assert_eq!(updates.in_progress("a"), Some(&1));
    assert_eq!(updates.begin("b", false, 3), CategoryStep::Update);
    assert_eq!(updates.finish("a"), Some(1));
    assert_eq!(updates.begin("a", false, 4), CategoryStep::Update);
    assert_eq!(updates.in_progress("a"), Some(&4));
}
