//! The command line: the options, the subcommands, and the paths they lead
//! to.
use vstd::prelude::*;
use crate::path::{joined, path_join};
use crate::text::owned;

verus! {

/// The subcommands.
pub enum Commands {
    /// Full sync of all repositories.
    Sync,
    Push,
    Pull,
    Commit,
    /// Interactive review of conflicts.
    Conflicts,
    /// State of the repositories.
    Status,
    /// Sync again and again, `interval` apart.
    Watch { interval: String },
    /// Check for and install a new version of the tool.
    Update,
    /// Check (and with `upgrade`, update) the system's git.
    GitCheck { upgrade: bool },
}

pub enum CommandsView {
    Sync,
    Push,
    Pull,
    Commit,
    Conflicts,
    Status,
    Watch { interval: Seq<char> },
    Update,
    GitCheck { upgrade: bool },
}

impl View for Commands {
    type V = CommandsView;

    open spec fn view(&self) -> CommandsView {
        match self {
            Commands::Sync => CommandsView::Sync,
            Commands::Push => CommandsView::Push,
            Commands::Pull => CommandsView::Pull,
            Commands::Commit => CommandsView::Commit,
            Commands::Conflicts => CommandsView::Conflicts,
            Commands::Status => CommandsView::Status,
            Commands::Watch { interval } => CommandsView::Watch { interval: interval@ },
            Commands::Update => CommandsView::Update,
            Commands::GitCheck { upgrade } => CommandsView::GitCheck { upgrade: *upgrade },
        }
    }
}

/// The options.
pub struct Cli {
    /// No console output, only the log.
    pub silent: bool,
    /// Compact output.
    pub compact: bool,
    /// Show the planned actions without changing anything.
    pub dry_run: bool,
    /// Theme: amoled | classic | mono | none.
    pub theme: String,
    /// Sync only this repository (path or name).
    pub repo: Option<String>,
    /// The folder holding the vaults.
    pub root: Option<String>,
    pub command: Option<Commands>,
}

pub open spec fn or_text(o: Option<String>, d: Seq<char>) -> Seq<char> {
    match o {
        Some(s) => s@,
        None => d,
    }
}

fn or_owned(o: Option<String>, d: &str) -> (r: String)
    ensures
        r@ == or_text(o, d@),
{
    match o {
        Some(s) => s,
        None => owned(d),
    }
}

pub open spec fn home_or_tmp(home: Option<String>) -> Seq<char> {
    or_text(home, "/tmp"@)
}

impl Cli {
    /// The vaults' folder: `--root`, else `$OBSIDIAN_ROOT`, else the phone's
    /// shared Documents/Vaults on Android, else `Vaults` in the documents
    /// folder (or in `.`).
    pub fn root(&self, env_root: Option<String>, android: bool, documents: Option<String>) -> (r: String)
        ensures
            r@ == (match self.root {
                Some(p) => p@,
                None => match env_root {
                    Some(e) => e@,
                    None => if android {
                        "/storage/emulated/0/Documents/Vaults"@
                    } else {
                        joined(or_text(documents, "."@), "Vaults"@)
                    },
                },
            }),
    {
        match &self.root {
            Some(p) => p.clone(),
            None => match env_root {
                Some(e) => e,
                None => if android {
                    owned("/storage/emulated/0/Documents/Vaults")
                } else {
                    let d = or_owned(documents, ".");
                    path_join(d.as_str(), "Vaults")
                },
            },
        }
    }

    /// The log file: `$OBSIDIAN_LOG`, else `.obsidian_sync.log` in the home
    /// folder (or in `/tmp`).
    pub fn log_path(&self, env_log: Option<String>, home: Option<String>) -> (r: String)
        ensures
            r@ == (match env_log {
                Some(e) => e@,
                None => joined(home_or_tmp(home), ".obsidian_sync.log"@),
            }),
    {
        match env_log {
            Some(e) => e,
            None => {
                let h = or_owned(home, "/tmp");
                path_join(h.as_str(), ".obsidian_sync.log")
            },
        }
    }

    /// The status file: `.obsidian_sync_status` in the home folder (or in
    /// `/tmp`).
    pub fn status_path(&self, home: Option<String>) -> (r: String)
        ensures
            r@ == joined(home_or_tmp(home), ".obsidian_sync_status"@),
    {
        let h = or_owned(home, "/tmp");
        path_join(h.as_str(), ".obsidian_sync_status")
    }

    /// The lock folder: `tmp/obsidian_sync.lock.d` under `$PREFIX`, else
    /// under the home folder (or `/tmp`).
    pub fn lock_dir(&self, env_prefix: Option<String>, home: Option<String>) -> (r: String)
        ensures
            r@ == joined(
                joined(
                    match env_prefix {
                        Some(p) => p@,
                        None => home_or_tmp(home),
                    },
                    "tmp"@,
                ),
                "obsidian_sync.lock.d"@,
            ),
    {
        let base = match env_prefix {
            Some(p) => p,
            None => or_owned(home, "/tmp"),
        };
        let t = path_join(base.as_str(), "tmp");
        path_join(t.as_str(), "obsidian_sync.lock.d")
    }
}

} // verus!
