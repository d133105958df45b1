use crate::calendar::{day_in_range, format_day, formatted_day};
use crate::config::{views, Config};
use crate::error::{BackyError, Tool};
use crate::paths::{dir_contents_arg, gen_backup_root_str, join, joined};
use crate::update::LATEST_NAME;
use vstd::prelude::*;

verus! {

/// strftime-style pattern of the compressed snapshot's file name.
pub const ARTIFACT_NAME_FORMAT: &'static str = "backy_%Y-%-m-%-d.tar.gz";

/// Where an upload stands: the outside work it waits for, or its result.
#[derive(Debug, PartialEq, Eq)]
pub enum RemoteStep {
    /// List the remotes that the transfer tool knows.
    ListRemotes,
    /// Run the transfer tool's dry-run synchronization against the remote.
    Probe,
    /// Compress the `latest` snapshot into the artifact.
    Compress,
    /// Upload the artifact to the remote.
    Upload,
    /// Finished, or the error.
    Done(Result<(), BackyError>),
}

/// The outcome of the outside work that a step asked for.
pub enum RemoteEvent {
    /// The known remotes, one per line of the tool's listing; `None` where
    /// the tool could not be run.
    RemotesListed(Option<Vec<String>>),
    /// Whether the tool that the step ran exited with status zero.
    Exited(bool),
}

/// A run of the remote archival pipeline.
pub struct CmdRemote {
    /// The remote to upload to.
    pub remote: String,
    /// The `latest` reference, whose snapshot is shipped.
    pub latest_path: String,
    /// File name of the compressed snapshot, after today's date.
    pub artifact_name: String,
    /// What the run waits for, or its result.
    pub step: RemoteStep,
}

/// True when `remote` is one of the `known` remotes.
pub open spec fn is_known_remote(remote: Seq<char>, known: Seq<String>) -> bool {
    exists|i: int| 0 <= i < known.len() && known[i]@ == remote
}

impl CmdRemote {
    /// This is a run that has not started yet, for `config` on the day
    /// `today`.
    pub open spec fn is_start(self, config: Config, today: i32) -> bool {
        &&& self.remote == config.rclone_remote
        &&& self.latest_path@ == joined(config.archive_path@, LATEST_NAME@)
        &&& self.artifact_name@ == formatted_day(today, ARTIFACT_NAME_FORMAT@)
        &&& self.step == RemoteStep::ListRemotes
    }

    /// Path of the artifact inside the scratch directory `scratch`.
    pub open spec fn artifact_path(self, scratch: Seq<char>) -> Seq<char> {
        joined(scratch, self.artifact_name@)
    }

    /// Arguments of the transfer tool's connectivity probe: a dry-run
    /// mirroring of the `latest` snapshot's contents onto the remote.
    pub open spec fn probe_args_spec(self) -> Seq<Seq<char>> {
        seq!["sync"@, "--dry-run"@, dir_contents_arg(self.latest_path@), self.remote@]
    }

    /// Arguments of the archive tool that compresses the `latest` snapshot
    /// into the artifact inside `scratch`.
    pub open spec fn compress_args_spec(self, scratch: Seq<char>) -> Seq<Seq<char>> {
        seq!["-czpf"@, self.artifact_path(scratch), "-C"@, self.latest_path@, "."@]
    }

    /// Arguments of the transfer tool that uploads the artifact inside
    /// `scratch` to the remote.
    pub open spec fn upload_args_spec(self, scratch: Seq<char>) -> Seq<Seq<char>> {
        seq!["sync"@, "--progress"@, self.artifact_path(scratch), self.remote@]
    }

    /// The step that follows `self.step` once `event` is known. An event
    /// that does not answer the pending step, and any event once the run is
    /// done, changes nothing.
    pub open spec fn next_step(self, event: RemoteEvent) -> RemoteStep {
        match (self.step, event) {
            (RemoteStep::ListRemotes, RemoteEvent::RemotesListed(listed)) => match listed {
                None => RemoteStep::Done(Err(BackyError::ToolUnavailable(Tool::Transfer))),
                Some(known) => if is_known_remote(self.remote@, known@) {
                    RemoteStep::Probe
                } else {
                    RemoteStep::Done(Err(BackyError::InvalidRemoteName))
                },
            },
            (RemoteStep::Probe, RemoteEvent::Exited(ok)) => if ok {
                RemoteStep::Compress
            } else {
                RemoteStep::Done(Err(BackyError::RemoteUnreachable))
            },
            (RemoteStep::Compress, RemoteEvent::Exited(ok)) => if ok {
                RemoteStep::Upload
            } else {
                RemoteStep::Done(Err(BackyError::CompressionFailed))
            },
            (RemoteStep::Upload, RemoteEvent::Exited(ok)) => if ok {
                RemoteStep::Done(Ok(()))
            } else {
                RemoteStep::Done(Err(BackyError::RemoteUploadFailed))
            },
            _ => self.step,
        }
    }

    /// The run after `event`.
    pub open spec fn next(self, event: RemoteEvent) -> CmdRemote {
        CmdRemote {
            remote: self.remote,
            latest_path: self.latest_path,
            artifact_name: self.artifact_name,
            step: self.next_step(event),
        }
    }

    /// The run after each of `events` in turn.
    pub open spec fn run(self, events: Seq<RemoteEvent>) -> CmdRemote
        decreases events.len(),
    {
        if events.len() == 0 {
            self
        } else {
            self.next(events[0]).run(events.drop_first())
        }
    }

    /// A run for `config` on the day `today`.
    pub fn new(config: &Config, today: i32) -> (r: CmdRemote)
        requires
            day_in_range(today as int),
        ensures
            r.is_start(*config, today),
    {
        CmdRemote {
            remote: config.rclone_remote.clone(),
            latest_path: join(config.archive_path.as_str(), LATEST_NAME),
            artifact_name: format_day(today, ARTIFACT_NAME_FORMAT),
            step: RemoteStep::ListRemotes,
        }
    }

    /// Arguments of the transfer tool's connectivity probe.
    pub fn probe_args(&self) -> (r: Vec<String>)
        ensures
            views(r@) == self.probe_args_spec(),
    {
        let mut r: Vec<String> = Vec::new();
        r.push(String::from_str("sync"));
        r.push(String::from_str("--dry-run"));
        r.push(gen_backup_root_str(self.latest_path.as_str()));
        r.push(self.remote.clone());
        assert(views(r@) =~= self.probe_args_spec());
        r
    }

    /// Arguments of the archive tool that writes the artifact into the
    /// scratch directory `scratch`.
    pub fn compress_args(&self, scratch: &str) -> (r: Vec<String>)
        ensures
            views(r@) == self.compress_args_spec(scratch@),
    {
        let mut r: Vec<String> = Vec::new();
        r.push(String::from_str("-czpf"));
        r.push(join(scratch, self.artifact_name.as_str()));
        r.push(String::from_str("-C"));
        r.push(self.latest_path.clone());
        r.push(String::from_str("."));
        assert(views(r@) =~= self.compress_args_spec(scratch@));
        r
    }

    /// Arguments of the transfer tool that uploads the artifact from the
    /// scratch directory `scratch`.
    pub fn upload_args(&self, scratch: &str) -> (r: Vec<String>)
        ensures
            views(r@) == self.upload_args_spec(scratch@),
    {
        let mut r: Vec<String> = Vec::new();
        r.push(String::from_str("sync"));
        r.push(String::from_str("--progress"));
        r.push(join(scratch, self.artifact_name.as_str()));
        r.push(self.remote.clone());
        assert(views(r@) =~= self.upload_args_spec(scratch@));
        r
    }

    /// Takes in the outcome of the pending step's work.
    pub fn step(&mut self, event: RemoteEvent)
        ensures
            *final(self) == old(self).next(event),
    {
        let next = match event {
            RemoteEvent::RemotesListed(listed) => match self.step {
                RemoteStep::ListRemotes => match listed {
                    None => Some(RemoteStep::Done(Err(BackyError::ToolUnavailable(Tool::Transfer)))),
                    Some(known) => if rclone_valid_remote(&self.remote, &known) {
                        Some(RemoteStep::Probe)
                    } else {
                        Some(RemoteStep::Done(Err(BackyError::InvalidRemoteName)))
                    },
                },
                _ => None,
            },
            RemoteEvent::Exited(ok) => match self.step {
                RemoteStep::Probe => if ok {
                    Some(RemoteStep::Compress)
                } else {
                    Some(RemoteStep::Done(Err(BackyError::RemoteUnreachable)))
                },
                RemoteStep::Compress => if ok {
                    Some(RemoteStep::Upload)
                } else {
                    Some(RemoteStep::Done(Err(BackyError::CompressionFailed)))
                },
                RemoteStep::Upload => if ok {
                    Some(RemoteStep::Done(Ok(())))
                } else {
                    Some(RemoteStep::Done(Err(BackyError::RemoteUploadFailed)))
                },
                _ => None,
            },
        };
        if let Some(s) = next {
            self.step = s;
        }
    }
}

/// Whether `rclone_remote` is one of the `known` remotes.
pub fn rclone_valid_remote(rclone_remote: &String, known: &Vec<String>) -> (r: bool)
    ensures
        r == is_known_remote(rclone_remote@, known@),
{
    let mut i: usize = 0;
    while i < known.len()
        invariant
            i <= known@.len(),
            forall|j: int| 0 <= j < i ==> known@[j]@ != rclone_remote@,
        decreases known@.len() - i,
    {
        if known[i] == *rclone_remote {
            return true;
        }
        i = i + 1;
    }
    false
}

/// Once the connectivity probe has failed, the run is over with
/// `RemoteUnreachable`: whatever follows, nothing is compressed or uploaded.
pub proof fn lemma_failed_probe_stops(s: CmdRemote, events: Seq<RemoteEvent>)
    requires
        s.step == RemoteStep::Probe,
    ensures
        forall|k: int|
            0 <= k <= events.len() ==> #[trigger] s.next(RemoteEvent::Exited(false)).run(
                events.take(k),
            ).step == RemoteStep::Done(Err(BackyError::RemoteUnreachable)),
{
    let failed = s.next(RemoteEvent::Exited(false));
    assert forall|k: int| 0 <= k <= events.len() implies #[trigger] failed.run(
        events.take(k),
    ).step == RemoteStep::Done(Err(BackyError::RemoteUnreachable)) by {
        lemma_done_stays(failed, events.take(k));
    }
}

/// A finished run stays finished, with the same result.
pub proof fn lemma_done_stays(s: CmdRemote, events: Seq<RemoteEvent>)
    requires
        s.step is Done,
    ensures
        s.run(events).step == s.step,
    decreases events.len(),
{
    if events.len() > 0 {
        lemma_done_stays(s.next(events[0]), events.drop_first());
    }
}

/// Compression starts only right after a successful connectivity probe, and
/// the upload only right after a successful compression.
pub proof fn lemma_pipeline_order(s: CmdRemote, event: RemoteEvent)
    ensures
        s.step != RemoteStep::Compress && s.next(event).step == RemoteStep::Compress ==> s.step
            == RemoteStep::Probe && event == RemoteEvent::Exited(true),
        s.step != RemoteStep::Upload && s.next(event).step == RemoteStep::Upload ==> s.step
            == RemoteStep::Compress && event == RemoteEvent::Exited(true),
{
}

} // verus!
