use vstd::prelude::*;

verus! {

/// The external programs that the commands drive.
#[derive(Debug, Clone, Copy, PartialEq, Eq, Structural)]
pub enum Tool {
    /// The synchronization tool, `rsync`.
    Sync,
    /// The remote transfer tool, `rclone`.
    Transfer,
}

/// Every way a command of this library can fail.
#[derive(Debug, Clone, PartialEq, Eq)]
pub enum BackyError {
    /// No command was given on the command line.
    NoCommand,
    /// The command named on the command line does not exist.
    BadCommand(String),
    /// The external tool cannot be run.
    ToolUnavailable(Tool),
    /// Today's snapshot directory could not be created; holds the cause.
    ArchiveDirCreateFailed(String),
    /// The source root of the named target is not a directory.
    BackupRootNotDirectory(String),
    /// The synchronization tool failed on the named target.
    SyncFailed(String),
    /// The `latest` reference could not be replaced; holds the cause.
    LatestUpdateFailed(String),
    /// The archive root could not be listed; holds the cause.
    NoArchiveDirectory(String),
    /// The named expired snapshots could not be removed.
    SnapshotRemovalFailed(Vec<String>),
    /// The configured remote is not one the transfer tool knows.
    InvalidRemoteName,
    /// The connectivity probe against the remote failed.
    RemoteUnreachable,
    /// The archive tool failed to compress the snapshot.
    CompressionFailed,
    /// The transfer tool failed to upload the compressed snapshot.
    RemoteUploadFailed,
    /// Today's date cannot be read from the system clock.
    ClockUnavailable,
    /// The user's configuration directory cannot be found.
    NoConfigDir,
    /// The configuration file cannot be read.
    NoConfigFile,
    /// The configuration file is malformed; holds the parser's explanation.
    BadConfigFormat(String),
}

/// One line per name, each preceded by a line break.
pub open spec fn listed(names: Seq<String>) -> Seq<char>
    decreases names.len(),
{
    if names.len() == 0 {
        Seq::empty()
    } else {
        listed(names.drop_last()) + "\n"@ + names.last()@
    }
}

impl BackyError {
    /// The message shown to the user for this error.
    pub open spec fn message(&self) -> Seq<char> {
        match self {
            BackyError::NoCommand => "no command to execute. Try `backy help` for aditional information."@,
            BackyError::BadCommand(cmd) => "command '"@ + cmd@ + "' doesn't exist"@,
            BackyError::ToolUnavailable(Tool::Sync) => "unable to find `rsync` executable"@,
            BackyError::ToolUnavailable(Tool::Transfer) => "unable to find `rclone` executable"@,
            BackyError::ArchiveDirCreateFailed(cause) => "unable to create backup archive directory:\n"@ + cause@,
            BackyError::BackupRootNotDirectory(_) => "the backup_root is not a directory."@,
            BackyError::SyncFailed(_) => "rsync failed to create user backup. Error description can be found above."@,
            BackyError::LatestUpdateFailed(cause) => "unable to update `latest` symlink:\n"@ + cause@,
            BackyError::NoArchiveDirectory(cause) => "unable to read the archive directory:\n"@ + cause@,
            BackyError::SnapshotRemovalFailed(names) => "unable to remove the following snapshots:"@ + listed(names@),
            BackyError::InvalidRemoteName => "invalid rclone_remote setting in config. Run `rclone listremotes` for a list of possible values"@,
            BackyError::RemoteUnreachable => "unable to establish connection with remote. Check your internet connection"@,
            BackyError::CompressionFailed => "there was an unexpected error while generating the compressed backup file"@,
            BackyError::RemoteUploadFailed => "unable to send compressed backup to rclone remote"@,
            BackyError::ClockUnavailable => "unable to read today's date from the system clock"@,
            BackyError::NoConfigDir => "unable to open the configuration directory"@,
            BackyError::NoConfigFile => "unable to open the configuration file (maybe the file doesn't exist?)"@,
            BackyError::BadConfigFormat(cause) => "unable to parse config:\n"@ + cause@,
        }
    }

    /// The message shown to the user for this error.
    pub fn get_err_msg(&self) -> (r: String)
        ensures
            r@ == self.message(),
    {
        match self {
            BackyError::NoCommand => String::from_str(
                "no command to execute. Try `backy help` for aditional information.",
            ),
            BackyError::BadCommand(cmd) => surround("command '", cmd, "' doesn't exist"),
            BackyError::ToolUnavailable(Tool::Sync) => String::from_str(
                "unable to find `rsync` executable",
            ),
            BackyError::ToolUnavailable(Tool::Transfer) => String::from_str(
                "unable to find `rclone` executable",
            ),
            BackyError::ArchiveDirCreateFailed(cause) => prefixed("unable to create backup archive directory:\n", cause),
            BackyError::BackupRootNotDirectory(_) => String::from_str(
                "the backup_root is not a directory.",
            ),
            BackyError::SyncFailed(_) => String::from_str(
                "rsync failed to create user backup. Error description can be found above.",
            ),
            BackyError::LatestUpdateFailed(cause) => prefixed("unable to update `latest` symlink:\n", cause),
            BackyError::NoArchiveDirectory(cause) => prefixed("unable to read the archive directory:\n", cause),
            BackyError::SnapshotRemovalFailed(names) => {
                let mut msg = String::from_str("unable to remove the following snapshots:");
                let ghost head = msg@;
                let mut i: usize = 0;
                while i < names.len()
                    invariant
                        i <= names.len(),
                        msg@ == head + listed(names@.take(i as int)),
                    decreases names.len() - i,
                {
                    proof {
                        assert(names@.take(i as int + 1).drop_last() =~= names@.take(i as int));
                    }
                    msg.append("\n");
                    msg.append(names[i].as_str());
                    i = i + 1;
                }
                proof {
                    assert(names@.take(names.len() as int) =~= names@);
                }
                msg
            },
            BackyError::InvalidRemoteName => String::from_str(
                "invalid rclone_remote setting in config. Run `rclone listremotes` for a list of possible values",
            ),
            BackyError::RemoteUnreachable => String::from_str(
                "unable to establish connection with remote. Check your internet connection",
            ),
            BackyError::CompressionFailed => String::from_str(
                "there was an unexpected error while generating the compressed backup file",
            ),
            BackyError::RemoteUploadFailed => String::from_str(
                "unable to send compressed backup to rclone remote",
            ),
            BackyError::ClockUnavailable => String::from_str(
                "unable to read today's date from the system clock",
            ),
            BackyError::NoConfigDir => String::from_str("unable to open the configuration directory"),
            BackyError::NoConfigFile => String::from_str(
                "unable to open the configuration file (maybe the file doesn't exist?)",
            ),
            BackyError::BadConfigFormat(cause) => prefixed("unable to parse config:\n", cause),
        }
    }
}

/// `before`, then `rest`.
fn prefixed(before: &str, rest: &String) -> (r: String)
    ensures
        r@ == before@ + rest@,
{
    let mut r = String::from_str(before);
    r.append(rest.as_str());
    r
}

/// `before`, then `middle`, then `after`.
fn surround(before: &str, middle: &String, after: &str) -> (r: String)
    ensures
        r@ == before@ + middle@ + after@,
{
    let mut r = String::from_str(before);
    r.append(middle.as_str());
    r.append(after);
    r
}

} // verus!
