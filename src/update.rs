use crate::calendar::{day_in_range, format_day, formatted_day, SNAPSHOT_NAME_FORMAT};
use crate::config::{views, BackupDescription, Config};
use crate::error::{BackyError, Tool};
use crate::paths::{dir_contents_arg, gen_backup_root_str, join, joined};
use vstd::prelude::*;

verus! {

/// Name of the reference to the most recent complete snapshot.
pub const LATEST_NAME: &'static str = "latest";

/// `--exclude` followed by the pattern, for each pattern in order.
pub open spec fn exclude_flags(patterns: Seq<Seq<char>>) -> Seq<Seq<char>>
    decreases patterns.len(),
{
    if patterns.len() == 0 {
        Seq::empty()
    } else {
        exclude_flags(patterns.drop_last()).push("--exclude"@).push(patterns.last())
    }
}

/// The synchronization tool's arguments for the target `name` whose source is
/// `root`, run from inside the snapshot directory: archive mode with
/// compression, deletion of files gone from the source, hard links to the
/// target's copy under `latest`, the destination `name`, then the exclusions.
pub open spec fn sync_args(
    root: Seq<char>,
    latest: Seq<char>,
    name: Seq<char>,
    patterns: Seq<Seq<char>>,
) -> Seq<Seq<char>> {
    seq![
        dir_contents_arg(root),
        "-az"@,
        "--delete"@,
        "--link-dest"@,
        joined(latest, name),
        name,
    ] + exclude_flags(patterns)
}

/// The `--exclude` directives for the given patterns.
pub fn gen_exclude_arg<'a>(exclude_files: &'a [String]) -> (r: Vec<&'a str>)
    ensures
        r@.map_values(|s: &str| s@) == exclude_flags(views(exclude_files@)),
{
    let mut r: Vec<&'a str> = Vec::new();
    let mut i: usize = 0;
    while i < exclude_files.len()
        invariant
            i <= exclude_files@.len(),
            r@.map_values(|s: &str| s@) == exclude_flags(views(exclude_files@.take(i as int))),
        decreases exclude_files@.len() - i,
    {
        proof {
            assert(views(exclude_files@.take(i as int + 1)).drop_last() =~= views(
                exclude_files@.take(i as int),
            ));
        }
        r.push("--exclude");
        r.push(exclude_files[i].as_str());
        proof {
            assert(r@.map_values(|s: &str| s@) =~= exclude_flags(
                views(exclude_files@.take(i as int)),
            ).push("--exclude"@).push(exclude_files@[i as int]@));
        }
        i = i + 1;
    }
    proof {
        assert(exclude_files@.take(exclude_files@.len() as int) =~= exclude_files@);
    }
    r
}

/// The outcome of one target's synchronization job.
#[derive(Debug, Clone, Copy, PartialEq, Eq, Structural)]
pub enum JobOutcome {
    /// The tool mirrored the source root into the snapshot.
    Synced,
    /// The source root is not a directory; the tool was not run.
    RootNotDirectory,
    /// The tool exited with a non-zero status.
    SyncFailed,
}

/// One target's synchronization job.
#[derive(Debug, PartialEq, Eq)]
pub struct SyncJob {
    /// The target's name, also its subdirectory in the snapshot.
    pub name: String,
    /// The directory to back up; checked to be a directory before running.
    pub root: String,
    /// The synchronization tool's arguments, run from the snapshot directory.
    pub args: Vec<String>,
}

impl SyncJob {
    /// This is the job for target `name` described by `desc`, deduplicating
    /// against the `latest` reference at path `latest`.
    pub open spec fn is_job_for(self, name: String, desc: BackupDescription, latest: Seq<char>) -> bool {
        &&& self.name == name
        &&& self.root == desc.backup_root
        &&& views(self.args@) == sync_args(desc.backup_root@, latest, name@, desc.patterns())
    }
}

/// Builds the job of target `name`.
fn create_named_backup(latest_link: &String, name: &String, desc: &BackupDescription) -> (r:
    SyncJob)
    ensures
        r.is_job_for(*name, *desc, latest_link@),
{
    let mut args: Vec<String> = Vec::new();
    args.push(gen_backup_root_str(desc.backup_root.as_str()));
    args.push(String::from_str("-az"));
    args.push(String::from_str("--delete"));
    args.push(String::from_str("--link-dest"));
    args.push(join(latest_link.as_str(), name.as_str()));
    args.push(name.clone());
    let ghost head = views(args@);
    assert(head =~= seq![
        dir_contents_arg(desc.backup_root@),
        "-az"@,
        "--delete"@,
        "--link-dest"@,
        joined(latest_link@, name@),
        name@,
    ]);
    match &desc.exclude_files {
        Some(files) => {
            let flags = gen_exclude_arg(files.as_slice());
            let mut i: usize = 0;
            while i < flags.len()
                invariant
                    i <= flags@.len(),
                    flags@.map_values(|s: &str| s@) == exclude_flags(views(files@)),
                    views(args@) == head + flags@.map_values(|s: &str| s@).take(i as int),
                decreases flags@.len() - i,
            {
                let ghost before = args@;
                let arg = String::from_str(flags[i]);
                assert(arg@ == flags@.map_values(|s: &str| s@)[i as int]);
                args.push(arg);
                proof {
                    assert(args@ == before.push(arg));
                    assert(views(args@) =~= views(before).push(arg@));
                    assert(views(args@) =~= head + flags@.map_values(|s: &str| s@).take(
                        i as int + 1,
                    ));
                }
                i = i + 1;
            }
            proof {
                assert(flags@.map_values(|s: &str| s@).take(flags@.len() as int) =~= flags@.map_values(
                    |s: &str| s@,
                ));
            }
        },
        None => {
            proof {
                assert(views(args@) =~= head + exclude_flags(Seq::empty()));
            }
        },
    }
    SyncJob { name: name.clone(), root: desc.backup_root.clone(), args }
}

} // verus!

verus! {

/// Where a snapshot build stands: the outside work it waits for, or its
/// result.
#[derive(Debug, PartialEq, Eq)]
pub enum UpdateStep {
    /// Find out whether the synchronization tool can be run.
    ProbeTool,
    /// Create the snapshot directory, and the archive root if absent.
    CreateDir,
    /// Run every target's job, all of them to completion.
    Sync,
    /// Remove the old `latest` reference, if there is one.
    RemoveLatest,
    /// Create the `latest` reference to the new snapshot.
    LinkLatest,
    /// Finished: the snapshot's path, or the error.
    Done(Result<String, BackyError>),
}

/// The outcome of the outside work that a step asked for.
pub enum UpdateEvent {
    /// Whether the synchronization tool can be run.
    ToolProbed(bool),
    /// Whether the snapshot directory exists now; otherwise the cause.
    DirCreated(Result<(), String>),
    /// Each job's outcome, in the order of the jobs.
    JobsFinished(Vec<JobOutcome>),
    /// What became of the old `latest` reference.
    LatestRemoved(Removal),
    /// Whether the new `latest` reference exists now; otherwise the cause.
    LatestLinked(Result<(), String>),
}

/// The outcome of removing the old `latest` reference.
pub enum Removal {
    /// It was removed.
    Removed,
    /// There was none.
    Absent,
    /// It exists and could not be removed; holds the cause.
    Failed(String),
}

/// A run of the snapshot builder.
pub struct CmdUpdate {
    /// Today's snapshot directory.
    pub snapshot_path: String,
    /// The `latest` reference.
    pub latest_link: String,
    /// One job per target, in registration order.
    pub jobs: Vec<SyncJob>,
    /// What the run waits for, or its result.
    pub step: UpdateStep,
}

/// The index of the first outcome that is not a success, if any.
pub open spec fn first_failure(outcomes: Seq<JobOutcome>) -> Option<int>
    decreases outcomes.len(),
{
    if outcomes.len() == 0 {
        None
    } else {
        match first_failure(outcomes.drop_last()) {
            Some(i) => Some(i),
            None => if outcomes.last() != JobOutcome::Synced {
                Some(outcomes.len() - 1)
            } else {
                None
            },
        }
    }
}

/// `first_failure` finds the earliest failed outcome, and finds none exactly
/// when every job succeeded.
pub proof fn lemma_first_failure(outcomes: Seq<JobOutcome>)
    ensures
        first_failure(outcomes) matches Some(i) ==> {
            &&& 0 <= i < outcomes.len()
            &&& outcomes[i] != JobOutcome::Synced
            &&& forall|j: int| 0 <= j < i ==> outcomes[j] == JobOutcome::Synced
        },
        first_failure(outcomes) is None <==> forall|j: int|
            0 <= j < outcomes.len() ==> outcomes[j] == JobOutcome::Synced,
    decreases outcomes.len(),
{
    if outcomes.len() > 0 {
        let init = outcomes.drop_last();
        lemma_first_failure(init);
        assert forall|j: int| 0 <= j < init.len() implies init[j] == outcomes[j] by {}
        if first_failure(outcomes) is None {
            assert forall|j: int| 0 <= j < outcomes.len() implies outcomes[j]
                == JobOutcome::Synced by {
                if j < outcomes.len() - 1 {
                    assert(outcomes[j] == outcomes.drop_last()[j]);
                }
            }
        }
    }
}

/// The error that a failed job of target `name` reports.
pub open spec fn job_error(name: String, outcome: JobOutcome) -> BackyError {
    if outcome == JobOutcome::RootNotDirectory {
        BackyError::BackupRootNotDirectory(name)
    } else {
        BackyError::SyncFailed(name)
    }
}

/// True at the steps that change the `latest` reference.
pub open spec fn touches_latest(step: UpdateStep) -> bool {
    step == UpdateStep::RemoveLatest || step == UpdateStep::LinkLatest
}

/// True once the build itself has succeeded: from then on only the `latest`
/// reference is at stake.
pub open spec fn past_build(step: UpdateStep) -> bool {
    match step {
        UpdateStep::RemoveLatest => true,
        UpdateStep::LinkLatest => true,
        UpdateStep::Done(Ok(_)) => true,
        UpdateStep::Done(Err(BackyError::LatestUpdateFailed(_))) => true,
        _ => false,
    }
}

impl CmdUpdate {
    /// This is a run that has not started yet, for `config` on the day `today`.
    pub open spec fn is_start(self, config: Config, today: i32) -> bool {
        &&& self.snapshot_path@ == joined(
            config.archive_path@,
            formatted_day(today, SNAPSHOT_NAME_FORMAT@),
        )
        &&& self.latest_link@ == joined(config.archive_path@, LATEST_NAME@)
        &&& self.jobs@.len() == config.backups@.len()
        &&& forall|i: int|
            0 <= i < self.jobs@.len() ==> #[trigger] self.jobs@[i].is_job_for(
                config.backups@[i].0,
                config.backups@[i].1,
                self.latest_link@,
            )
        &&& self.step == UpdateStep::ProbeTool
    }

    /// The step that follows `self.step` once `event` is known. An event
    /// that does not answer the pending step, and any event once the run is
    /// done, changes nothing.
    pub open spec fn next_step(self, event: UpdateEvent) -> UpdateStep {
        match (self.step, event) {
            (UpdateStep::ProbeTool, UpdateEvent::ToolProbed(found)) => if found {
                UpdateStep::CreateDir
            } else {
                UpdateStep::Done(Err(BackyError::ToolUnavailable(Tool::Sync)))
            },
            (UpdateStep::CreateDir, UpdateEvent::DirCreated(created)) => match created {
                Ok(_) => UpdateStep::Sync,
                Err(cause) => UpdateStep::Done(Err(BackyError::ArchiveDirCreateFailed(cause))),
            },
            (UpdateStep::Sync, UpdateEvent::JobsFinished(outcomes)) => if outcomes@.len()
                != self.jobs@.len() {
                self.step
            } else {
                match first_failure(outcomes@) {
                    None => UpdateStep::RemoveLatest,
                    Some(i) => UpdateStep::Done(
                        Err(job_error(self.jobs@[i].name, outcomes@[i])),
                    ),
                }
            },
            (UpdateStep::RemoveLatest, UpdateEvent::LatestRemoved(removal)) => match removal {
                Removal::Failed(cause) => UpdateStep::Done(
                    Err(BackyError::LatestUpdateFailed(cause)),
                ),
                _ => UpdateStep::LinkLatest,
            },
            (UpdateStep::LinkLatest, UpdateEvent::LatestLinked(linked)) => match linked {
                Ok(_) => UpdateStep::Done(Ok(self.snapshot_path)),
                Err(cause) => UpdateStep::Done(Err(BackyError::LatestUpdateFailed(cause))),
            },
            _ => self.step,
        }
    }

    /// The run after `event`.
    pub open spec fn next(self, event: UpdateEvent) -> CmdUpdate {
        CmdUpdate {
            snapshot_path: self.snapshot_path,
            latest_link: self.latest_link,
            jobs: self.jobs,
            step: self.next_step(event),
        }
    }

    /// The run after each of `events` in turn.
    pub open spec fn run(self, events: Seq<UpdateEvent>) -> CmdUpdate
        decreases events.len(),
    {
        if events.len() == 0 {
            self
        } else {
            self.next(events[0]).run(events.drop_first())
        }
    }

    /// A run of the snapshot builder for `config` on the day `today`.
    pub fn new(config: &Config, today: i32) -> (r: CmdUpdate)
        requires
            day_in_range(today as int),
        ensures
            r.is_start(*config, today),
    {
        let name = format_day(today, SNAPSHOT_NAME_FORMAT);
        let snapshot_path = join(config.archive_path.as_str(), name.as_str());
        let latest_link = join(config.archive_path.as_str(), LATEST_NAME);
        let mut jobs: Vec<SyncJob> = Vec::new();
        let mut i: usize = 0;
        while i < config.backups.len()
            invariant
                i <= config.backups@.len(),
                jobs@.len() == i,
                forall|k: int|
                    0 <= k < i ==> #[trigger] jobs@[k].is_job_for(
                        config.backups@[k].0,
                        config.backups@[k].1,
                        latest_link@,
                    ),
            decreases config.backups@.len() - i,
        {
            let (name, desc) = &config.backups[i];
            jobs.push(create_named_backup(&latest_link, name, desc));
            i = i + 1;
        }
        CmdUpdate { snapshot_path, latest_link, jobs, step: UpdateStep::ProbeTool }
    }

    /// Takes in the outcome of the pending step's work.
    pub fn step(&mut self, event: UpdateEvent)
        ensures
            *final(self) == old(self).next(event),
    {
        let next = match event {
            UpdateEvent::ToolProbed(found) => match self.step {
                UpdateStep::ProbeTool => if found {
                    Some(UpdateStep::CreateDir)
                } else {
                    Some(UpdateStep::Done(Err(BackyError::ToolUnavailable(Tool::Sync))))
                },
                _ => None,
            },
            UpdateEvent::DirCreated(created) => match self.step {
                UpdateStep::CreateDir => match created {
                    Ok(_) => Some(UpdateStep::Sync),
                    Err(cause) => Some(UpdateStep::Done(Err(BackyError::ArchiveDirCreateFailed(cause)))),
                },
                _ => None,
            },
            UpdateEvent::JobsFinished(outcomes) => match self.step {
                UpdateStep::Sync => if outcomes.len() != self.jobs.len() {
                    None
                } else {
                    let found = find_first_failure(&outcomes);
                    proof {
                        lemma_first_failure(outcomes@);
                    }
                    match found {
                        None => Some(UpdateStep::RemoveLatest),
                        Some(i) => {
                            let name = self.jobs[i].name.clone();
                            let err = if outcomes[i] == JobOutcome::RootNotDirectory {
                                BackyError::BackupRootNotDirectory(name)
                            } else {
                                BackyError::SyncFailed(name)
                            };
                            Some(UpdateStep::Done(Err(err)))
                        },
                    }
                },
                _ => None,
            },
            UpdateEvent::LatestRemoved(removal) => match self.step {
                UpdateStep::RemoveLatest => match removal {
                    Removal::Failed(cause) => Some(UpdateStep::Done(Err(BackyError::LatestUpdateFailed(cause)))),
                    _ => Some(UpdateStep::LinkLatest),
                },
                _ => None,
            },
            UpdateEvent::LatestLinked(linked) => match self.step {
                UpdateStep::LinkLatest => match linked {
                    Ok(_) => Some(UpdateStep::Done(Ok(self.snapshot_path.clone()))),
                    Err(cause) => Some(UpdateStep::Done(Err(BackyError::LatestUpdateFailed(cause)))),
                },
                _ => None,
            },
        };
        if let Some(s) = next {
            self.step = s;
        }
    }
}

/// The index of the first outcome that is not a success, if any.
fn find_first_failure(outcomes: &Vec<JobOutcome>) -> (r: Option<usize>)
    ensures
        r matches Some(i) ==> first_failure(outcomes@) == Some(i as int),
        r is None ==> first_failure(outcomes@) is None,
{
    let mut r: Option<usize> = None;
    let mut i: usize = 0;
    while i < outcomes.len()
        invariant
            i <= outcomes@.len(),
            r matches Some(k) ==> first_failure(outcomes@.take(i as int)) == Some(k as int),
            r is None ==> first_failure(outcomes@.take(i as int)) is None,
        decreases outcomes@.len() - i,
    {
        proof {
            assert(outcomes@.take(i as int + 1).drop_last() =~= outcomes@.take(i as int));
        }
        if r.is_none() && outcomes[i] != JobOutcome::Synced {
            r = Some(i);
        }
        i = i + 1;
    }
    proof {
        assert(outcomes@.take(outcomes@.len() as int) =~= outcomes@);
    }
    r
}

} // verus!

verus! {

/// A run comes to change `latest` only right after every target's job
/// succeeded, one outcome for each job.
pub proof fn lemma_latest_follows_full_success(s: CmdUpdate, event: UpdateEvent)
    requires
        !touches_latest(s.step),
        touches_latest(s.next(event).step),
    ensures
        s.step == UpdateStep::Sync,
        event matches UpdateEvent::JobsFinished(outcomes) && {
            &&& outcomes@.len() == s.jobs@.len()
            &&& forall|j: int| 0 <= j < outcomes@.len() ==> outcomes@[j] == JobOutcome::Synced
        },
{
    if let UpdateEvent::JobsFinished(outcomes) = event {
        lemma_first_failure(outcomes@);
    }
}

/// Once the build has succeeded, no event brings a build error back.
pub proof fn lemma_past_build_stays(s: CmdUpdate, events: Seq<UpdateEvent>)
    requires
        past_build(s.step),
    ensures
        past_build(s.run(events).step),
    decreases events.len(),
{
    if events.len() > 0 {
        lemma_past_build_stays(s.next(events[0]), events.drop_first());
    }
}

/// Running a sequence of events is running its first `k` events, then the
/// rest.
pub proof fn lemma_run_split(s: CmdUpdate, events: Seq<UpdateEvent>, k: int)
    requires
        0 <= k <= events.len(),
    ensures
        s.run(events) == s.run(events.take(k)).run(events.skip(k)),
    decreases k,
{
    if k > 0 {
        lemma_run_split(s.next(events[0]), events.drop_first(), k - 1);
        assert(events.take(k).drop_first() =~= events.drop_first().take(k - 1));
        assert(events.drop_first().skip(k - 1) =~= events.skip(k));
    } else {
        assert(events.skip(0) =~= events);
    }
}

/// A build that fails leaves `latest` as it was: a run that ends in any
/// error other than a failure to replace `latest` never reached a step that
/// changes it.
pub proof fn lemma_failed_build_keeps_latest(s: CmdUpdate, events: Seq<UpdateEvent>)
    requires
        s.run(events).step matches UpdateStep::Done(Err(e)) && !(e is LatestUpdateFailed),
    ensures
        forall|k: int|
            0 <= k <= events.len() ==> !touches_latest(#[trigger] s.run(events.take(k)).step),
{
    assert forall|k: int| 0 <= k <= events.len() implies !touches_latest(
        #[trigger] s.run(events.take(k)).step,
    ) by {
        lemma_run_split(s, events, k);
        if touches_latest(s.run(events.take(k)).step) {
            lemma_past_build_stays(s.run(events.take(k)), events.skip(k));
        }
    }
}

} // verus!

verus! {

/// Two runs started for the same configuration on the same day plan the same
/// snapshot directory, the same `latest` reference and the same jobs: a
/// second run on one calendar day writes into the first run's snapshot.
pub proof fn lemma_same_day_same_plan(a: CmdUpdate, b: CmdUpdate, config: Config, today: i32)
    requires
        a.is_start(config, today),
        b.is_start(config, today),
    ensures
        a.snapshot_path@ == b.snapshot_path@,
        a.latest_link@ == b.latest_link@,
        a.jobs@.len() == b.jobs@.len(),
        forall|i: int|
            0 <= i < a.jobs@.len() ==> {
                &&& #[trigger] a.jobs@[i].name == b.jobs@[i].name
                &&& a.jobs@[i].root == b.jobs@[i].root
                &&& views(a.jobs@[i].args@) == views(b.jobs@[i].args@)
            },
{
    assert forall|i: int| 0 <= i < a.jobs@.len() implies {
        &&& #[trigger] a.jobs@[i].name == b.jobs@[i].name
        &&& a.jobs@[i].root == b.jobs@[i].root
        &&& views(a.jobs@[i].args@) == views(b.jobs@[i].args@)
    } by {
        assert(a.jobs@[i].is_job_for(config.backups@[i].0, config.backups@[i].1, a.latest_link@));
        assert(b.jobs@[i].is_job_for(config.backups@[i].0, config.backups@[i].1, b.latest_link@));
    }
}

} // verus!

verus! {

/// Where target names are unique, the jobs of a run write to distinct
/// subdirectories of the snapshot, so they may run in any interleaving.
pub proof fn lemma_jobs_write_apart(u: CmdUpdate, config: Config, today: i32)
    requires
        config.wf(),
        u.is_start(config, today),
    ensures
        forall|i: int, j: int|
            0 <= i < j < u.jobs@.len() ==> #[trigger] u.jobs@[i].name@ != #[trigger] u.jobs@[j].name@,
{
    assert forall|i: int, j: int| 0 <= i < j < u.jobs@.len() implies #[trigger] u.jobs@[i].name@
        != #[trigger] u.jobs@[j].name@ by {
        assert(u.jobs@[i].is_job_for(config.backups@[i].0, config.backups@[i].1, u.latest_link@));
        assert(u.jobs@[j].is_job_for(config.backups@[j].0, config.backups@[j].1, u.latest_link@));
        assert(config.backups@[i].0@ != config.backups@[j].0@);
    }
}

} // verus!
