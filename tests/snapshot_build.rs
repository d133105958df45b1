use backy::config::{BackupDescription, Config};
use backy::error::{BackyError, Tool};
use backy::paths::{gen_backup_root_str, join};
use backy::update::{gen_exclude_arg, CmdUpdate, JobOutcome, Removal, UpdateEvent, UpdateStep};

// 2024-01-01, counting 0001-01-01 as day 1.
const NEW_YEAR_2024: i32 = 738_886;

fn strings(v: &[&str]) -> Vec<String> {
    v.iter().map(|s| s.to_string()).collect()
}

fn config() -> Config {
    Config {
        archive_path: "/archive".to_string(),
        remove_older_than: 30,
        rclone_remote: "gdrive:".to_string(),
        backups: vec![
            (
                "A".to_string(),
                BackupDescription {
                    backup_root: "/home/user/docs".to_string(),
                    exclude_files: Some(strings(&["*.tmp", "cache/"])),
                },
            ),
            (
                "B".to_string(),
                BackupDescription { backup_root: "/does/not/exist/".to_string(), exclude_files: None },
            ),
        ],
    }
}

fn ready_to_sync() -> CmdUpdate {
    let mut u = CmdUpdate::new(&config(), NEW_YEAR_2024);
    u.step(UpdateEvent::ToolProbed(true));
    u.step(UpdateEvent::DirCreated(Ok(())));
    assert_eq!(u.step, UpdateStep::Sync);
    u
}

#[test]
fn paths_are_joined_with_one_separator() {
    assert_eq!(join("/archive", "latest"), "/archive/latest");
    assert_eq!(join("/archive/", "latest"), "/archive/latest");
    assert_eq!(join("", "latest"), "latest");
}

#[test]
fn backup_root_gets_a_trailing_separator() {
    assert_eq!(gen_backup_root_str("/home/user"), "/home/user/");
    assert_eq!(gen_backup_root_str("/home/user/"), "/home/user/");
    assert_eq!(gen_backup_root_str(""), "");
}

#[test]
fn exclude_patterns_become_flags() {
    let patterns = strings(&["*.tmp", "cache/"]);
    assert_eq!(gen_exclude_arg(&patterns), vec!["--exclude", "*.tmp", "--exclude", "cache/"]);
    assert!(gen_exclude_arg(&[]).is_empty());
}

#[test]
fn new_run_plans_one_job_per_target() {
    let u = CmdUpdate::new(&config(), NEW_YEAR_2024);
    assert_eq!(u.step, UpdateStep::ProbeTool);
    assert_eq!(u.snapshot_path, "/archive/20240101");
    assert_eq!(u.latest_link, "/archive/latest");
    assert_eq!(u.jobs.len(), 2);
    assert_eq!(u.jobs[0].name, "A");
    assert_eq!(u.jobs[0].root, "/home/user/docs");
    assert_eq!(
        u.jobs[0].args,
        strings(&[
            "/home/user/docs/",
            "-az",
            "--delete",
            "--link-dest",
            "/archive/latest/A",
            "A",
            "--exclude",
            "*.tmp",
            "--exclude",
            "cache/",
        ])
    );
    assert_eq!(
        u.jobs[1].args,
        strings(&["/does/not/exist/", "-az", "--delete", "--link-dest", "/archive/latest/B", "B"])
    );
}

#[test]
fn snapshot_name_is_the_compact_date() {
    let u = CmdUpdate::new(&config(), NEW_YEAR_2024 + 59);
    assert_eq!(u.snapshot_path, "/archive/20240229");
}

#[test]
fn missing_tool_stops_before_any_directory() {
    let mut u = CmdUpdate::new(&config(), NEW_YEAR_2024);
    u.step(UpdateEvent::ToolProbed(false));
    assert_eq!(u.step, UpdateStep::Done(Err(BackyError::ToolUnavailable(Tool::Sync))));
    u.step(UpdateEvent::DirCreated(Ok(())));
    assert_eq!(u.step, UpdateStep::Done(Err(BackyError::ToolUnavailable(Tool::Sync))));
}

#[test]
fn directory_failure_is_reported_with_its_cause() {
    let mut u = CmdUpdate::new(&config(), NEW_YEAR_2024);
    u.step(UpdateEvent::ToolProbed(true));
    assert_eq!(u.step, UpdateStep::CreateDir);
    u.step(UpdateEvent::DirCreated(Err("read-only file system".to_string())));
    assert_eq!(
        u.step,
        UpdateStep::Done(Err(BackyError::ArchiveDirCreateFailed("read-only file system".to_string())))
    );
}

#[test]
fn missing_source_root_fails_its_target_only() {
    let mut u = ready_to_sync();
    u.step(UpdateEvent::JobsFinished(vec![JobOutcome::Synced, JobOutcome::RootNotDirectory]));
    assert_eq!(u.step, UpdateStep::Done(Err(BackyError::BackupRootNotDirectory("B".to_string()))));
}

#[test]
fn first_failure_in_registration_order_is_reported() {
    let mut u = ready_to_sync();
    u.step(UpdateEvent::JobsFinished(vec![JobOutcome::SyncFailed, JobOutcome::RootNotDirectory]));
    assert_eq!(u.step, UpdateStep::Done(Err(BackyError::SyncFailed("A".to_string()))));
}

#[test]
fn failed_build_never_reaches_latest() {
    let mut u = ready_to_sync();
    u.step(UpdateEvent::JobsFinished(vec![JobOutcome::Synced, JobOutcome::SyncFailed]));
    let failed = UpdateStep::Done(Err(BackyError::SyncFailed("B".to_string())));
    assert_eq!(u.step, failed);
    u.step(UpdateEvent::LatestRemoved(Removal::Removed));
    u.step(UpdateEvent::LatestLinked(Ok(())));
    u.step(UpdateEvent::JobsFinished(vec![JobOutcome::Synced, JobOutcome::Synced]));
    assert_eq!(u.step, failed);
}

#[test]
fn outcomes_of_the_wrong_count_are_ignored() {
    let mut u = ready_to_sync();
    u.step(UpdateEvent::JobsFinished(vec![JobOutcome::Synced]));
    assert_eq!(u.step, UpdateStep::Sync);
}

#[test]
fn full_success_replaces_latest() {
    let mut u = ready_to_sync();
    u.step(UpdateEvent::JobsFinished(vec![JobOutcome::Synced, JobOutcome::Synced]));
    assert_eq!(u.step, UpdateStep::RemoveLatest);
    u.step(UpdateEvent::LatestRemoved(Removal::Removed));
    assert_eq!(u.step, UpdateStep::LinkLatest);
    u.step(UpdateEvent::LatestLinked(Ok(())));
    assert_eq!(u.step, UpdateStep::Done(Ok("/archive/20240101".to_string())));
}

#[test]
fn absent_latest_is_not_an_error() {
    let mut u = ready_to_sync();
    u.step(UpdateEvent::JobsFinished(vec![JobOutcome::Synced, JobOutcome::Synced]));
    u.step(UpdateEvent::LatestRemoved(Removal::Absent));
    assert_eq!(u.step, UpdateStep::LinkLatest);
}

#[test]
fn latest_removal_failure_is_reported() {
    let mut u = ready_to_sync();
    u.step(UpdateEvent::JobsFinished(vec![JobOutcome::Synced, JobOutcome::Synced]));
    u.step(UpdateEvent::LatestRemoved(Removal::Failed("is a directory".to_string())));
    assert_eq!(
        u.step,
        UpdateStep::Done(Err(BackyError::LatestUpdateFailed("is a directory".to_string())))
    );
}

#[test]
fn latest_link_failure_is_reported_after_the_build() {
    let mut u = ready_to_sync();
    u.step(UpdateEvent::JobsFinished(vec![JobOutcome::Synced, JobOutcome::Synced]));
    u.step(UpdateEvent::LatestRemoved(Removal::Absent));
    u.step(UpdateEvent::LatestLinked(Err("permission denied".to_string())));
    assert_eq!(
        u.step,
        UpdateStep::Done(Err(BackyError::LatestUpdateFailed("permission denied".to_string())))
    );
}

#[test]
fn same_day_runs_plan_the_same_snapshot() {
    let first = CmdUpdate::new(&config(), NEW_YEAR_2024);
    let second = CmdUpdate::new(&config(), NEW_YEAR_2024);
    assert_eq!(first.snapshot_path, second.snapshot_path);
    assert_eq!(first.jobs, second.jobs);
}
