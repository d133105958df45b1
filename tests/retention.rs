use backy::clean::{select_dated, select_expired, CleanEvent, CleanStep, CmdClean};
use backy::error::BackyError;
use chrono::{Datelike, Duration, NaiveDate};

fn today() -> NaiveDate {
    NaiveDate::from_ymd_opt(2024, 3, 1).unwrap()
}

fn day_number(d: NaiveDate) -> i32 {
    d.num_days_from_ce()
}

fn aged(days: i64) -> String {
    (today() - Duration::days(days)).format("%Y%m%d").to_string()
}

fn names(v: &[&str]) -> Vec<String> {
    v.iter().map(|s| s.to_string()).collect()
}

#[test]
fn prunes_exactly_the_expired_snapshots() {
    let entries = vec![aged(10), aged(20), aged(40)];
    let r = select_expired(&entries, day_number(today()), 15);
    assert_eq!(r, vec![aged(20), aged(40)]);
    assert_eq!(r, names(&["20240210", "20240121"]));
}

#[test]
fn age_equal_to_window_is_expired() {
    let entries = vec![aged(15), aged(14)];
    assert_eq!(select_expired(&entries, day_number(today()), 15), vec![aged(15)]);
}

#[test]
fn never_prunes_every_snapshot() {
    let entries = vec![aged(10), aged(20), aged(40)];
    assert!(select_expired(&entries, day_number(today()), 0).is_empty());
    assert!(select_expired(&entries, day_number(today()), 5).is_empty());
    assert!(select_expired(&entries, day_number(today()), -3).is_empty());
}

#[test]
fn empty_archive_prunes_nothing() {
    assert!(select_expired(&Vec::new(), day_number(today()), 0).is_empty());
}

#[test]
fn non_snapshot_entries_are_never_touched() {
    let entries = vec!["notes".to_string(), aged(400), aged(1), "latest".to_string()];
    assert_eq!(select_expired(&entries, day_number(today()), 15), vec![aged(400)]);
    let entries = vec!["notes".to_string(), aged(400), aged(300)];
    assert!(select_expired(&entries, day_number(today()), 15).is_empty());
    assert!(select_expired(&entries, day_number(today()), 0).is_empty());
}

#[test]
fn invalid_dates_are_not_snapshots() {
    let entries = names(&["20230231", "2023-01-01", "20230101x", "20230101"]);
    assert_eq!(
        select_expired(&entries, day_number(today()), 15),
        Vec::<String>::new(),
        "only one snapshot: it is the last one and stays"
    );
    let entries = names(&["20230231", "20230101", "20240301"]);
    assert_eq!(select_expired(&entries, day_number(today()), 15), names(&["20230101"]));
}

#[test]
fn clean_session_removes_and_counts() {
    let mut c = CmdClean::new("/archive".to_string(), 15, day_number(today()));
    assert_eq!(c.step, CleanStep::ListArchive);
    c.step(CleanEvent::Listed(Ok(vec!["notes".to_string(), aged(10), aged(20), aged(40)])));
    assert_eq!(c.step, CleanStep::Remove(vec![aged(20), aged(40)]));
    c.step(CleanEvent::Removed(vec![None, None]));
    assert_eq!(c.step, CleanStep::Done(Ok(2)));
    assert_eq!(c.archive_path, "/archive");
}

#[test]
fn clean_session_reports_unlistable_archive() {
    let mut c = CmdClean::new("/missing".to_string(), 15, day_number(today()));
    c.step(CleanEvent::Listed(Err("No such file or directory".to_string())));
    assert_eq!(
        c.step,
        CleanStep::Done(Err(BackyError::NoArchiveDirectory("No such file or directory".to_string())))
    );
}

#[test]
fn clean_session_with_nothing_expired_is_done() {
    let mut c = CmdClean::new("/archive".to_string(), 15, day_number(today()));
    c.step(CleanEvent::Listed(Ok(vec![aged(1), aged(2)])));
    assert_eq!(c.step, CleanStep::Done(Ok(0)));
}

#[test]
fn clean_session_aggregates_removal_failures() {
    let mut c = CmdClean::new("/archive".to_string(), 15, day_number(today()));
    c.step(CleanEvent::Listed(Ok(vec![aged(1), aged(20), aged(30), aged(40)])));
    // A mismatched answer is ignored.
    c.step(CleanEvent::Removed(vec![None]));
    assert_eq!(c.step, CleanStep::Remove(vec![aged(20), aged(30), aged(40)]));
    c.step(CleanEvent::Removed(vec![Some("busy".to_string()), None, Some("denied".to_string())]));
    assert_eq!(
        c.step,
        CleanStep::Done(Err(BackyError::SnapshotRemovalFailed(vec![aged(20), aged(40)])))
    );
    // Once done, nothing changes it.
    c.step(CleanEvent::Listed(Ok(vec![])));
    assert!(matches!(c.step, CleanStep::Done(Err(_))));
}

fn dated(v: &[(&str, Option<i32>)]) -> Vec<(String, Option<i32>)> {
    v.iter().map(|(n, d)| (n.to_string(), *d)).collect()
}

#[test]
fn selection_by_given_dates() {
    // Snapshots 10, 20 and 40 days old on day 1000, window 15.
    let entries = dated(&[("a", Some(990)), ("b", Some(980)), ("notes", None), ("c", Some(960))]);
    assert_eq!(select_dated(&entries, 1000, 15), names(&["b", "c"]));
    // Every snapshot expired: nothing is removed.
    assert!(select_dated(&entries, 1000, 10).is_empty());
    assert!(select_dated(&entries, 1000, 0).is_empty());
    // Nothing expired.
    assert!(select_dated(&entries, 1000, 41).is_empty());
    // Only entries without a date: nothing to do.
    assert!(select_dated(&dated(&[("notes", None), ("latest", None)]), 1000, 0).is_empty());
}

#[test]
fn selection_window_boundary_and_future_dates() {
    let entries = dated(&[("old", Some(985)), ("edge", Some(986)), ("future", Some(1005))]);
    assert_eq!(select_dated(&entries, 1000, 15), names(&["old"]));
    assert_eq!(select_dated(&entries, 1000, 14), names(&["old", "edge"]));
    // A negative window expires the future snapshot too, so all would go: none does.
    assert!(select_dated(&entries, 1000, -10).is_empty());
    assert_eq!(select_dated(&entries, 1000, -4), names(&["old", "edge"]));
}
