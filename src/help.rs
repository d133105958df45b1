use vstd::prelude::*;

verus! {

/// What `backy help` writes.
pub const HELP_MSG: &'static str = "\
Backy helps users to manage local and remote backups using the rclone and rsync tools.

USAGE:
    backy [COMMAND]

where COMMAND is one of:
    help      Write this help message.
    update    Update backup files to most recent version.
    remote    Update remote drive with most recent backup version.
    clean     Remove old backups.";

/// The help command: it only writes the help message.
pub struct CmdHelp;

impl CmdHelp {
    /// The help message.
    pub fn message(&self) -> (r: &'static str)
        ensures
            r@ == HELP_MSG@,
    {
        HELP_MSG
    }
}

} // verus!
