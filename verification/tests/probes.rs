use icon_cache::check::{candidate_verdict, marker_verdict, present_verdict, Verdict};
use icon_cache::get::{candidate_read_verdict, ReadVerdict};
use icon_cache::probe::{probe, should_retry, Probe, HOUR_IN_SECS, RECHECK_PERIOD_SECS};
use icon_cache::protocol::FileStat;
use icon_cache::request::AssetIconCheck;
use icon_cache::status::IconStatus;

#[test]
fn recheck_period_is_twelve_hours() {
    assert_eq!(HOUR_IN_SECS, 3600);
    assert_eq!(RECHECK_PERIOD_SECS, 43200);
}

#[test]
fn missing_file_is_absent() {
    assert_eq!(probe(FileStat::Missing), Probe::Absent);
}

#[test]
fn failed_stat_is_unreadable() {
    assert_eq!(probe(FileStat::Unreadable), Probe::Unreadable);
}

#[test]
fn file_with_content_is_present_whatever_its_age() {
    assert_eq!(probe(FileStat::Exists { len: 1, age_secs: Some(0) }), Probe::Present);
    assert_eq!(probe(FileStat::Exists { len: 1, age_secs: None }), Probe::Present);
    assert_eq!(probe(FileStat::Exists { len: u64::MAX, age_secs: Some(u64::MAX) }), Probe::Present);
}

#[test]
fn empty_file_is_a_marker_with_its_age() {
    assert_eq!(
        probe(FileStat::Exists { len: 0, age_secs: Some(17) }),
        Probe::NegativeCached { age_secs: 17 }
    );
    assert_eq!(
        probe(FileStat::Exists { len: 0, age_secs: Some(0) }),
        Probe::NegativeCached { age_secs: 0 }
    );
}

#[test]
fn empty_file_without_age_is_undated() {
    assert_eq!(probe(FileStat::Exists { len: 0, age_secs: None }), Probe::Undated);
}

#[test]
fn only_a_present_entry_is_usable() {
    assert!(Probe::Present.is_usable());
    assert!(!Probe::Absent.is_usable());
    assert!(!Probe::Unreadable.is_usable());
    assert!(!Probe::Undated.is_usable());
    assert!(!Probe::NegativeCached { age_secs: 0 }.is_usable());
}

#[test]
fn retry_starts_at_twelve_hours() {
    assert!(!should_retry(0, false));
    assert!(!should_retry(43199, false));
    assert!(should_retry(43200, false));
    assert!(should_retry(43201, false));
    assert!(should_retry(u64::MAX, false));
}

#[test]
fn forced_refresh_always_retries() {
    assert!(should_retry(0, true));
    assert!(should_retry(43199, true));
    assert!(should_retry(43200, true));
}

#[test]
fn verdict_on_cached_icon() {
    assert_eq!(present_verdict(false), Verdict::Serve);
    assert_eq!(present_verdict(true), Verdict::Refresh);
    assert_eq!(candidate_verdict(Probe::Present, false), Verdict::Serve);
    assert_eq!(candidate_verdict(Probe::Present, true), Verdict::Refresh);
}

#[test]
fn verdict_on_marker() {
    assert_eq!(marker_verdict(43199, false), Verdict::Missing);
    assert_eq!(marker_verdict(43200, false), Verdict::Refresh);
    assert_eq!(marker_verdict(0, true), Verdict::Refresh);
    assert_eq!(
        candidate_verdict(Probe::NegativeCached { age_secs: 43199 }, false),
        Verdict::Missing
    );
    assert_eq!(
        candidate_verdict(Probe::NegativeCached { age_secs: 43200 }, false),
        Verdict::Refresh
    );
    assert_eq!(candidate_verdict(Probe::NegativeCached { age_secs: 5 }, true), Verdict::Refresh);
}

#[test]
fn verdict_on_the_other_entries() {
    assert_eq!(candidate_verdict(Probe::Absent, false), Verdict::Fetch);
    assert_eq!(candidate_verdict(Probe::Absent, true), Verdict::Fetch);
    assert_eq!(candidate_verdict(Probe::Unreadable, false), Verdict::Missing);
    assert_eq!(candidate_verdict(Probe::Unreadable, true), Verdict::Missing);
    assert_eq!(candidate_verdict(Probe::Undated, false), Verdict::Broken);
    assert_eq!(candidate_verdict(Probe::Undated, true), Verdict::Broken);
}

#[test]
fn read_verdicts() {
    assert_eq!(candidate_read_verdict(Probe::Present), ReadVerdict::Read);
    assert_eq!(candidate_read_verdict(Probe::Absent), ReadVerdict::Missing);
    assert_eq!(candidate_read_verdict(Probe::Unreadable), ReadVerdict::Missing);
    assert_eq!(
        candidate_read_verdict(Probe::NegativeCached { age_secs: 99999 }),
        ReadVerdict::Missing
    );
    assert_eq!(candidate_read_verdict(Probe::Undated), ReadVerdict::Broken);
}

#[test]
fn only_an_explicit_true_forces_a_refresh() {
    let mut request = AssetIconCheck { asset_id: "ETH".to_string(), force_refresh: None };
    assert!(!request.forces_refresh());
    request.force_refresh = Some(false);
    assert!(!request.forces_refresh());
    request.force_refresh = Some(true);
    assert!(request.forces_refresh());
}

#[test]
fn status_codes() {
    assert_eq!(IconStatus::Found.code(), 200);
    assert_eq!(IconStatus::Accepted.code(), 202);
    assert_eq!(IconStatus::NotModified.code(), 304);
    assert_eq!(IconStatus::NotFound.code(), 404);
    assert_eq!(IconStatus::InternalError.code(), 500);
}
