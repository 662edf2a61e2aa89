//! Limits and names that the sync uses.
use vstd::prelude::*;

verus! {

/// Seconds that `git fetch` may take.
pub const FETCH_TIMEOUT_SECS: u64 = 30;

/// Seconds that `git pull` and `git push` may take.
pub const GIT_OP_TIMEOUT_SECS: u64 = 60;

/// Seconds that `git commit` and `git ls-remote` may take.
pub const SHORT_OP_TIMEOUT_SECS: u64 = 15;

/// Seconds that each connectivity probe may take.
pub const CONNECTIVITY_TIMEOUT_SECS: u64 = 5;

/// Folder, inside each repository, that holds the backups of conflicted files.
pub const CONFLICT_DIR: &'static str = ".sync-conflicts";

/// Days after which a conflict backup is removed.
pub const CONFLICT_MAX_AGE_DAYS: i64 = 30;

/// Size above which the log file is rotated.
pub const LOG_MAX_BYTES: u64 = 1048576;

/// Commits read when looking for the last sync of each device.
pub const HISTORY_DEPTH: u64 = 20;

} // verus!
