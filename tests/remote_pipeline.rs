use backy::config::Config;
use backy::error::{BackyError, Tool};
use backy::remote::{rclone_valid_remote, CmdRemote, RemoteEvent, RemoteStep};

// 2024-03-05, counting 0001-01-01 as day 1.
const MARCH_5_2024: i32 = 738_950;

fn strings(v: &[&str]) -> Vec<String> {
    v.iter().map(|s| s.to_string()).collect()
}

fn config() -> Config {
    Config {
        archive_path: "/archive".to_string(),
        remove_older_than: 30,
        rclone_remote: "gdrive:".to_string(),
        backups: Vec::new(),
    }
}

fn probing() -> CmdRemote {
    let mut r = CmdRemote::new(&config(), MARCH_5_2024);
    r.step(RemoteEvent::RemotesListed(Some(strings(&["box:", "gdrive:"]))));
    assert_eq!(r.step, RemoteStep::Probe);
    r
}

#[test]
fn plans_the_tool_invocations() {
    let r = CmdRemote::new(&config(), MARCH_5_2024);
    assert_eq!(r.step, RemoteStep::ListRemotes);
    assert_eq!(r.artifact_name, "backy_2024-3-5.tar.gz");
    assert_eq!(r.probe_args(), strings(&["sync", "--dry-run", "/archive/latest/", "gdrive:"]));
    assert_eq!(
        r.compress_args("/tmp/x"),
        strings(&["-czpf", "/tmp/x/backy_2024-3-5.tar.gz", "-C", "/archive/latest", "."])
    );
    assert_eq!(
        r.upload_args("/tmp/x"),
        strings(&["sync", "--progress", "/tmp/x/backy_2024-3-5.tar.gz", "gdrive:"])
    );
}

#[test]
fn remote_membership() {
    let known = strings(&["box:", "gdrive:"]);
    assert!(rclone_valid_remote(&"gdrive:".to_string(), &known));
    assert!(!rclone_valid_remote(&"gdrive".to_string(), &known));
    assert!(!rclone_valid_remote(&"gdrive:".to_string(), &Vec::new()));
}

#[test]
fn unknown_remote_is_rejected() {
    let mut r = CmdRemote::new(&config(), MARCH_5_2024);
    r.step(RemoteEvent::RemotesListed(Some(strings(&["box:"]))));
    assert_eq!(r.step, RemoteStep::Done(Err(BackyError::InvalidRemoteName)));
}

#[test]
fn missing_transfer_tool_is_reported() {
    let mut r = CmdRemote::new(&config(), MARCH_5_2024);
    r.step(RemoteEvent::RemotesListed(None));
    assert_eq!(r.step, RemoteStep::Done(Err(BackyError::ToolUnavailable(Tool::Transfer))));
}

#[test]
fn failed_probe_stops_before_compression() {
    let mut r = probing();
    r.step(RemoteEvent::Exited(false));
    assert_eq!(r.step, RemoteStep::Done(Err(BackyError::RemoteUnreachable)));
    r.step(RemoteEvent::Exited(true));
    r.step(RemoteEvent::Exited(true));
    assert_eq!(r.step, RemoteStep::Done(Err(BackyError::RemoteUnreachable)));
}

#[test]
fn compression_failure_stops_before_upload() {
    let mut r = probing();
    r.step(RemoteEvent::Exited(true));
    assert_eq!(r.step, RemoteStep::Compress);
    r.step(RemoteEvent::Exited(false));
    assert_eq!(r.step, RemoteStep::Done(Err(BackyError::CompressionFailed)));
}

#[test]
fn upload_failure_is_reported() {
    let mut r = probing();
    r.step(RemoteEvent::Exited(true));
    r.step(RemoteEvent::Exited(true));
    assert_eq!(r.step, RemoteStep::Upload);
    r.step(RemoteEvent::Exited(false));
    assert_eq!(r.step, RemoteStep::Done(Err(BackyError::RemoteUploadFailed)));
}

#[test]
fn full_pipeline_succeeds() {
    let mut r = probing();
    r.step(RemoteEvent::RemotesListed(None));
    assert_eq!(r.step, RemoteStep::Probe);
    r.step(RemoteEvent::Exited(true));
    r.step(RemoteEvent::Exited(true));
    r.step(RemoteEvent::Exited(true));
    assert_eq!(r.step, RemoteStep::Done(Ok(())));
}
