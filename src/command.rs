use crate::calendar::{day_in_range, today};
use crate::clean::CmdClean;
use crate::config::Config;
use crate::error::BackyError;
use crate::help::CmdHelp;
use crate::remote::CmdRemote;
use crate::update::CmdUpdate;
use vstd::prelude::*;

verus! {

/// The commands (modes of operation) of the program.
#[derive(Debug, Clone, Copy, PartialEq, Eq, Structural)]
pub enum Command {
    /// Remove expired snapshots.
    Clean,
    /// Write the help message.
    Help,
    /// Build today's snapshot and advance `latest`.
    Update,
    /// Ship the `latest` snapshot to the remote.
    Remote,
}

/// The command that `word` names, if any.
pub open spec fn command_named(word: Seq<char>) -> Option<Command> {
    if word == "help"@ {
        Some(Command::Help)
    } else if word == "clean"@ {
        Some(Command::Clean)
    } else if word == "update"@ {
        Some(Command::Update)
    } else if word == "remote"@ {
        Some(Command::Remote)
    } else {
        None
    }
}

impl Command {
    /// The command that the argument list asks for; `args[0]` is the program
    /// name and `args[1]` the command word.
    pub fn from_args(args: &[String]) -> (r: Result<Command, BackyError>)
        ensures
            args@.len() <= 1 ==> r == Err::<Command, BackyError>(BackyError::NoCommand),
            args@.len() > 1 ==> r == match command_named(args@[1]@) {
                Some(c) => Ok(c),
                None => Err(BackyError::BadCommand(args@[1])),
            },
    {
        if args.len() <= 1 {
            return Err(BackyError::NoCommand);
        }
        let word = &args[1];
        if *word == String::from_str("help") {
            Ok(Command::Help)
        } else if *word == String::from_str("clean") {
            Ok(Command::Clean)
        } else if *word == String::from_str("update") {
            Ok(Command::Update)
        } else if *word == String::from_str("remote") {
            Ok(Command::Remote)
        } else {
            Err(BackyError::BadCommand(word.clone()))
        }
    }
}

} // verus!

verus! {

/// A started command: the state machine that the caller drives.
pub enum Session {
    /// Write the help message.
    Help(CmdHelp),
    /// Build today's snapshot and advance `latest`.
    Update(CmdUpdate),
    /// Remove expired snapshots.
    Clean(CmdClean),
    /// Ship the `latest` snapshot to the remote.
    Remote(CmdRemote),
}

impl Session {
    /// This session is `cmd` started with `config` on some representable day.
    pub open spec fn started_as(self, cmd: Command, config: Config) -> bool {
        match (self, cmd) {
            (Session::Help(_), Command::Help) => true,
            (Session::Update(u), Command::Update) => exists|t: i32|
                day_in_range(t as int) && u.is_start(config, t),
            (Session::Clean(c), Command::Clean) => exists|t: i32|
                day_in_range(t as int) && c.is_start(
                    config.archive_path,
                    config.remove_older_than,
                    t,
                ),
            (Session::Remote(m), Command::Remote) => exists|t: i32|
                day_in_range(t as int) && m.is_start(config, t),
            _ => false,
        }
    }
}

impl Command {
    /// Starts this command with `config` on today's date. Only the help
    /// command needs no date; the others fail where the system clock gives
    /// none.
    pub fn execute(self, config: Config) -> (r: Result<Session, BackyError>)
        ensures
            match r {
                Ok(s) => s.started_as(self, config),
                Err(e) => self != Command::Help && e == BackyError::ClockUnavailable,
            },
            self == Command::Help ==> r is Ok,
    {
        if let Command::Help = self {
            return Ok(Session::Help(CmdHelp));
        }
        let t = match today() {
            Some(t) => t,
            None => return Err(BackyError::ClockUnavailable),
        };
        match self {
            Command::Help => Ok(Session::Help(CmdHelp)),
            Command::Update => Ok(Session::Update(CmdUpdate::new(&config, t))),
            Command::Clean => Ok(
                Session::Clean(CmdClean::new(config.archive_path, config.remove_older_than, t)),
            ),
            Command::Remote => Ok(Session::Remote(CmdRemote::new(&config, t))),
        }
    }
}

} // verus!
