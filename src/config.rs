use vstd::prelude::*;

verus! {

/// One backup target: the directory to back up and what to leave out.
pub struct BackupDescription {
    /// Path of the directory whose contents are backed up.
    pub backup_root: String,
    /// Glob patterns of files and directories to leave out of the backup.
    pub exclude_files: Option<Vec<String>>,
}

/// The user's settings, loaded once before any command runs.
pub struct Config {
    /// Directory under which the dated snapshots and `latest` live.
    pub archive_path: String,
    /// Age in days from which a snapshot is expired.
    pub remove_older_than: i64,
    /// Name of the remote that the transfer tool uploads to.
    pub rclone_remote: String,
    /// The backup targets in registration order, each with the name of its
    /// subdirectory inside a snapshot.
    pub backups: Vec<(String, BackupDescription)>,
}

/// The views of a sequence of strings.
pub open spec fn views(v: Seq<String>) -> Seq<Seq<char>> {
    v.map_values(|s: String| s@)
}

impl Config {
    /// Target names are unique: each names its own subdirectory of a
    /// snapshot.
    pub open spec fn wf(&self) -> bool {
        forall|i: int, j: int|
            0 <= i < j < self.backups@.len() ==> #[trigger] self.backups@[i].0@
                != #[trigger] self.backups@[j].0@
    }
}

impl BackupDescription {
    /// The exclusion patterns, none where the list is absent.
    pub open spec fn patterns(&self) -> Seq<Seq<char>> {
        match self.exclude_files {
            Some(files) => views(files@),
            None => Seq::empty(),
        }
    }
}

} // verus!
