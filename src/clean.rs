use crate::calendar::{parse_day, parsed_day, SNAPSHOT_NAME_FORMAT};
use crate::error::BackyError;
use vstd::prelude::*;

verus! {

/// The date of the snapshot named `name`, as a day number; `None` where the
/// name is not a date in the snapshot pattern.
pub open spec fn snapshot_day(name: Seq<char>) -> Option<i32> {
    parsed_day(name, SNAPSHOT_NAME_FORMAT@)
}

/// True when an archive entry named `name` is a snapshot.
pub open spec fn is_snapshot(name: Seq<char>) -> bool {
    snapshot_day(name) is Some
}

/// An archive entry's name beside the day number its name denotes, if any.
pub type Dated = (String, Option<i32>);

/// True when the entry is a snapshot.
pub open spec fn has_date(e: Dated) -> bool {
    e.1 is Some
}

/// True when the entry is a snapshot at least `window` whole days old on
/// the day `today`.
pub open spec fn is_old(e: Dated, today: i32, window: i64) -> bool {
    e.1 matches Some(d) && today - d >= window
}

/// The snapshots among the entries, in order.
pub open spec fn snapshots(dated: Seq<Dated>) -> Seq<Dated> {
    dated.filter(|e: Dated| has_date(e))
}

/// The expired snapshots among the entries, in order.
pub open spec fn expired(dated: Seq<Dated>, today: i32, window: i64) -> Seq<Dated> {
    dated.filter(|e: Dated| is_old(e, today, window))
}

/// The names of the entries to delete: the expired snapshots, unless that
/// would be every snapshot, in which case none.
pub open spec fn selection(dated: Seq<Dated>, today: i32, window: i64) -> Seq<String> {
    if expired(dated, today, window).len() == snapshots(dated).len() {
        Seq::empty()
    } else {
        expired(dated, today, window).map_values(|e: Dated| e.0)
    }
}

/// Each entry's name beside the date it denotes in the snapshot pattern.
pub open spec fn dated(entries: Seq<String>) -> Seq<Dated> {
    entries.map_values(|e: String| (e, snapshot_day(e@)))
}

/// The names among `entries` to delete on the day `today` under a retention
/// window of `window` days.
pub open spec fn prune_selection(entries: Seq<String>, today: i32, window: i64) -> Seq<String> {
    selection(dated(entries), today, window)
}

/// The names of the entries to delete on the day `today` under a retention
/// window of `window` days, given each entry's date (`None` for an entry
/// that is not a snapshot).
pub fn select_dated(dated: &Vec<Dated>, today: i32, window: i64) -> (r: Vec<String>)
    ensures
        r@ == selection(dated@, today, window),
{
    let mut n_snapshots: usize = 0;
    let mut old_ones: Vec<String> = Vec::new();
    let mut i: usize = 0;
    while i < dated.len()
        invariant
            i <= dated@.len(),
            n_snapshots == snapshots(dated@.take(i as int)).len(),
            old_ones@ == expired(dated@.take(i as int), today, window).map_values(|e: Dated| e.0),
        decreases dated@.len() - i,
    {
        let ghost prefix = dated@.take(i as int + 1);
        proof {
            assert(prefix.drop_last() =~= dated@.take(i as int));
            reveal(Seq::filter);
            prefix.drop_last().lemma_filter_len(|e: Dated| has_date(e));
            let olds = expired(dated@.take(i as int), today, window);
            assert(olds.push(dated@[i as int]).map_values(|e: Dated| e.0) =~= olds.map_values(
                |e: Dated| e.0,
            ).push(dated@[i as int].0));
        }
        let (name, day) = &dated[i];
        match day {
            Some(d) => {
                n_snapshots = n_snapshots + 1;
                if today as i64 - *d as i64 >= window {
                    old_ones.push(name.clone());
                }
            },
            None => {},
        }
        i = i + 1;
    }
    proof {
        assert(dated@.take(dated@.len() as int) =~= dated@);
    }
    if old_ones.len() == n_snapshots {
        Vec::new()
    } else {
        old_ones
    }
}

/// The names among the archive `entries` to delete on the day `today` under
/// a retention window of `window` days.
pub fn select_expired(entries: &Vec<String>, today: i32, window: i64) -> (r: Vec<String>)
    ensures
        r@ == prune_selection(entries@, today, window),
{
    let mut with_dates: Vec<Dated> = Vec::new();
    let mut i: usize = 0;
    while i < entries.len()
        invariant
            i <= entries@.len(),
            with_dates@ == dated(entries@.take(i as int)),
        decreases entries@.len() - i,
    {
        let day = parse_day(entries[i].as_str(), SNAPSHOT_NAME_FORMAT);
        with_dates.push((entries[i].clone(), day));
        proof {
            assert(with_dates@ =~= dated(entries@.take(i as int + 1)));
        }
        i = i + 1;
    }
    proof {
        assert(entries@.take(entries@.len() as int) =~= entries@);
    }
    select_dated(&with_dates, today, window)
}

} // verus!

verus! {

/// Where a prune stands: the outside work it waits for, or its result.
#[derive(Debug, PartialEq, Eq)]
pub enum CleanStep {
    /// List the names of the entries directly under the archive root.
    ListArchive,
    /// Remove each named snapshot directory, recursively; every removal is
    /// attempted, whichever fail.
    Remove(Vec<String>),
    /// Finished: how many snapshots were removed, or the error.
    Done(Result<usize, BackyError>),
}

/// The outcome of the outside work that a step asked for.
pub enum CleanEvent {
    /// The entries' names, or why the archive root could not be listed.
    Listed(Result<Vec<String>, String>),
    /// For each snapshot to remove, in order: `None` where it was removed,
    /// otherwise the cause of the failure.
    Removed(Vec<Option<String>>),
}

/// A run of the retention pruner.
pub struct CmdClean {
    /// The archive root.
    pub archive_path: String,
    /// Age in days from which a snapshot is expired.
    pub retention_days: i64,
    /// Today, as a day number.
    pub today: i32,
    /// What the run waits for, or its result.
    pub step: CleanStep,
}

/// The names whose removal failed, in order.
pub open spec fn removal_failures(names: Seq<String>, results: Seq<Option<String>>) -> Seq<String>
    decreases names.len(),
{
    if names.len() == 0 || results.len() == 0 {
        Seq::empty()
    } else {
        let init = removal_failures(names.drop_last(), results.drop_last());
        if results.last() is Some {
            init.push(names.last())
        } else {
            init
        }
    }
}

impl CmdClean {
    /// This is a prune of `archive_path` that has not started yet, with a window of `window`
    /// days on the day `today`.
    pub open spec fn is_start(self, archive_path: String, window: i64, today: i32) -> bool {
        &&& self.archive_path == archive_path
        &&& self.retention_days == window
        &&& self.today == today
        &&& self.step == CleanStep::ListArchive
    }

    /// `after` is this run once `event` is known. An event that does not
    /// answer the pending step, and any event once the run is done, changes
    /// nothing.
    pub open spec fn steps_to(self, event: CleanEvent, after: CmdClean) -> bool {
        &&& after.archive_path == self.archive_path
        &&& after.retention_days == self.retention_days
        &&& after.today == self.today
        &&& match (self.step, event) {
            (CleanStep::ListArchive, CleanEvent::Listed(Err(cause))) => after.step
                == CleanStep::Done(Err(BackyError::NoArchiveDirectory(cause))),
            (CleanStep::ListArchive, CleanEvent::Listed(Ok(entries))) => {
                let doomed = prune_selection(entries@, self.today, self.retention_days);
                if doomed.len() == 0 {
                    after.step == CleanStep::Done(Ok(0))
                } else {
                    after.step matches CleanStep::Remove(names) && names@ == doomed
                }
            },
            (CleanStep::Remove(names), CleanEvent::Removed(results)) => if results@.len()
                != names@.len() {
                after.step == self.step
            } else {
                let failed = removal_failures(names@, results@);
                if failed.len() == 0 {
                    after.step matches CleanStep::Done(Ok(n)) && n == names@.len()
                } else {
                    after.step matches CleanStep::Done(
                        Err(BackyError::SnapshotRemovalFailed(f)),
                    ) && f@ == failed
                }
            },
            _ => after.step == self.step,
        }
    }

    /// A prune of the archive at `archive_path` with a window of `window`
    /// days on the day `today`.
    pub fn new(archive_path: String, window: i64, today: i32) -> (r: CmdClean)
        ensures
            r.is_start(archive_path, window, today),
    {
        CmdClean { archive_path, retention_days: window, today, step: CleanStep::ListArchive }
    }

    /// Takes in the outcome of the pending step's work.
    pub fn step(&mut self, event: CleanEvent)
        ensures
            old(self).steps_to(event, *final(self)),
    {
        let next = match event {
            CleanEvent::Listed(listed) => match self.step {
                CleanStep::ListArchive => match listed {
                    Err(cause) => Some(CleanStep::Done(Err(BackyError::NoArchiveDirectory(cause)))),
                    Ok(entries) => {
                        let doomed = select_expired(&entries, self.today, self.retention_days);
                        if doomed.len() == 0 {
                            Some(CleanStep::Done(Ok(0)))
                        } else {
                            Some(CleanStep::Remove(doomed))
                        }
                    },
                },
                _ => None,
            },
            CleanEvent::Removed(results) => match &self.step {
                CleanStep::Remove(names) => if results.len() != names.len() {
                    None
                } else {
                    let failed = failed_removals(names, &results);
                    if failed.len() == 0 {
                        Some(CleanStep::Done(Ok(names.len())))
                    } else {
                        Some(CleanStep::Done(Err(BackyError::SnapshotRemovalFailed(failed))))
                    }
                },
                _ => None,
            },
        };
        if let Some(s) = next {
            self.step = s;
        }
    }
}

/// The names whose removal failed, in order.
fn failed_removals(names: &Vec<String>, results: &Vec<Option<String>>) -> (r: Vec<String>)
    requires
        names@.len() == results@.len(),
    ensures
        r@ == removal_failures(names@, results@),
{
    let mut r: Vec<String> = Vec::new();
    let mut i: usize = 0;
    while i < names.len()
        invariant
            names@.len() == results@.len(),
            i <= names@.len(),
            r@ == removal_failures(names@.take(i as int), results@.take(i as int)),
        decreases names@.len() - i,
    {
        proof {
            assert(names@.take(i as int + 1).drop_last() =~= names@.take(i as int));
            assert(results@.take(i as int + 1).drop_last() =~= results@.take(i as int));
        }
        if results[i].is_some() {
            r.push(names[i].clone());
        }
        i = i + 1;
    }
    proof {
        assert(names@.take(names@.len() as int) =~= names@);
        assert(results@.take(results@.len() as int) =~= results@);
    }
    r
}

} // verus!

verus! {

/// Where `p` implies `q` on every element, filtering by `p` keeps no more
/// elements than filtering by `q`.
proof fn lemma_filter_no_longer(s: Seq<Dated>, p: spec_fn(Dated) -> bool, q: spec_fn(Dated) -> bool)
    requires
        forall|i: int| 0 <= i < s.len() ==> p(s[i]) ==> q(s[i]),
    ensures
        s.filter(p).len() <= s.filter(q).len(),
    decreases s.len(),
{
    reveal(Seq::filter);
    if s.len() > 0 {
        let init = s.drop_last();
        assert forall|i: int| 0 <= i < init.len() && p(init[i]) implies q(init[i]) by {
            assert(init[i] == s[i]);
        }
        lemma_filter_no_longer(init, p, q);
    }
}

/// Pruning never empties the archive: where there is a snapshot, fewer
/// snapshots are selected for deletion than there are, whatever the window.
pub proof fn lemma_prune_keeps_a_snapshot(dated: Seq<Dated>, today: i32, window: i64)
    requires
        snapshots(dated).len() > 0,
    ensures
        selection(dated, today, window).len() < snapshots(dated).len(),
{
    let old_p = |e: Dated| is_old(e, today, window);
    let snap_p = |e: Dated| has_date(e);
    lemma_filter_no_longer(dated, old_p, snap_p);
}

/// True when `name` is the name of an entry that is a snapshot at least
/// `window` days old on the day `today`.
pub open spec fn names_expired(dated: Seq<Dated>, name: String, today: i32, window: i64) -> bool {
    exists|i: int| 0 <= i < dated.len() && dated[i].0 == name && is_old(dated[i], today, window)
}

/// Pruning selects only expired snapshots.
pub proof fn lemma_prune_selects_only_expired(dated: Seq<Dated>, today: i32, window: i64)
    ensures
        forall|k: int|
            0 <= k < selection(dated, today, window).len() ==> #[trigger] names_expired(
                dated,
                selection(dated, today, window)[k],
                today,
                window,
            ),
{
    let old_p = |e: Dated| is_old(e, today, window);
    let olds = dated.filter(old_p);
    let chosen = selection(dated, today, window);
    if chosen.len() > 0 {
        assert forall|k: int| 0 <= k < chosen.len() implies #[trigger] names_expired(
            dated,
            chosen[k],
            today,
            window,
        ) by {
            assert(chosen[k] == olds[k].0);
            dated.lemma_filter_pred(old_p, k);
            assert(olds.contains(olds[k]));
            dated.lemma_filter_contains_rev(old_p, olds[k]);
            let i = choose|i: int| 0 <= i < dated.len() && dated[i] == olds[k];
            assert(dated[i].0 == chosen[k] && is_old(dated[i], today, window));
        }
    }
}

/// Where some snapshot is not expired, pruning selects every expired
/// snapshot, in order.
pub proof fn lemma_prune_selects_all_expired(dated: Seq<Dated>, today: i32, window: i64)
    requires
        exists|i: int| 0 <= i < dated.len() && has_date(dated[i]) && !is_old(dated[i], today, window),
    ensures
        selection(dated, today, window) == expired(dated, today, window).map_values(|e: Dated| e.0),
{
    let old_p = |e: Dated| is_old(e, today, window);
    let snap_p = |e: Dated| has_date(e);
    let k = choose|i: int| 0 <= i < dated.len() && has_date(dated[i]) && !is_old(dated[i], today, window);
    lemma_filter_shorter(dated, old_p, snap_p, k);
}

/// Where `p` implies `q` on every element, and `q` but not `p` holds of the
/// element at `k`, filtering by `p` keeps fewer elements than filtering by `q`.
proof fn lemma_filter_shorter(
    s: Seq<Dated>,
    p: spec_fn(Dated) -> bool,
    q: spec_fn(Dated) -> bool,
    k: int,
)
    requires
        forall|i: int| 0 <= i < s.len() ==> p(s[i]) ==> q(s[i]),
        0 <= k < s.len(),
        q(s[k]),
        !p(s[k]),
    ensures
        s.filter(p).len() < s.filter(q).len(),
    decreases s.len(),
{
    reveal(Seq::filter);
    let init = s.drop_last();
    assert forall|i: int| 0 <= i < init.len() && p(init[i]) implies q(init[i]) by {
        assert(init[i] == s[i]);
    }
    if k == s.len() - 1 {
        lemma_filter_no_longer(init, p, q);
    } else {
        assert(init[k] == s[k]);
        lemma_filter_shorter(init, p, q, k);
    }
}

/// Pruning never selects an archive entry whose name is not a snapshot
/// date, whatever its age or the window.
pub proof fn lemma_prune_spares_non_snapshots(
    entries: Seq<String>,
    today: i32,
    window: i64,
    name: String,
)
    requires
        !is_snapshot(name@),
    ensures
        !prune_selection(entries, today, window).contains(name),
{
    let chosen = prune_selection(entries, today, window);
    lemma_prune_selects_only_expired(dated(entries), today, window);
    if chosen.contains(name) {
        let k = choose|k: int| 0 <= k < chosen.len() && chosen[k] == name;
        assert(names_expired(dated(entries), chosen[k], today, window));
        let i = choose|i: int|
            0 <= i < dated(entries).len() && dated(entries)[i].0 == chosen[k] && is_old(
                dated(entries)[i],
                today,
                window,
            );
        assert(dated(entries)[i] == (entries[i], snapshot_day(entries[i]@)));
    }
}

} // verus!
