//! The log file: where it lives, when it is rotated, and how a line reads.
use vstd::prelude::*;
use crate::clock::{TimeKind, format_of, local_render, local_time};
use crate::config::LOG_MAX_BYTES;
use crate::path::{parent_of, path_parent, path_with_extension, with_ext};
use crate::text::{cat, owned};

verus! {

pub struct Logger {
    pub path: String,
}

/// What to do before logging: create the log's folder, and move a log that
/// has grown too large aside.
pub struct LogPrepare {
    pub create_dir: Option<String>,
    pub rotate_to: Option<String>,
}

/// A log line: the time in brackets, the message, a newline.
pub open spec fn log_line(ts: Seq<char>, msg: Seq<char>) -> Seq<char> {
    "["@ + ts + "] "@ + msg + "\n"@
}

impl Logger {
    pub fn new(path: String) -> (l: Logger)
        ensures
            l.path@ == path@,
    {
        Logger { path }
    }

    /// The preparation for a log whose current size is `size` (`None` when
    /// it does not exist): its parent folder is created, and it is renamed
    /// to `<name>.log.1` when larger than the limit.
    pub fn prepare(&self, size: Option<u64>) -> (p: LogPrepare)
        ensures
            match p.create_dir {
                Some(d) => parent_of(self.path@) == Some(d@),
                None => parent_of(self.path@) is None,
            },
            match p.rotate_to {
                Some(t) => size matches Some(n) && n > LOG_MAX_BYTES && t@ == with_ext(
                    self.path@,
                    "log.1"@,
                ),
                None => !(size matches Some(n) && n > LOG_MAX_BYTES),
            },
    {
        let create_dir = path_parent(self.path.as_str());
        let rotate_to = match size {
            Some(n) => if n > LOG_MAX_BYTES {
                proof {
                    reveal_strlit("log.1");
                }
                Some(path_with_extension(self.path.as_str(), "log.1"))
            } else {
                None
            },
            None => None,
        };
        LogPrepare { create_dir, rotate_to }
    }

    /// The line appended for `msg` at the time `ts`.
    pub fn line_at(ts: &str, msg: &str) -> (r: String)
        ensures
            r@ == log_line(ts@, msg@),
    {
        let mut r = owned("[");
        r.append(ts);
        r.append("] ");
        r.append(msg);
        r.append("\n");
        r
    }

    /// The line appended for `msg` now: with some local time written as log
    /// lines write it; `None` when the clock cannot be read.
    pub fn log(&self, msg: &str) -> (r: Option<String>)
        ensures
            r matches Some(l) ==> exists|t: (i64, u32, i32)| l@ == log_line(
                #[trigger] local_render(t, format_of(TimeKind::LogLine)),
                msg@,
            ),
    {
        match local_time(TimeKind::LogLine) {
            Some(ts) => {
                let l = Logger::line_at(ts.as_str(), msg);
                proof {
                    let t = choose|t: (i64, u32, i32)| ts@ == #[trigger] local_render(t, format_of(TimeKind::LogLine));
                    assert(l@ == log_line(local_render(t, format_of(TimeKind::LogLine)), msg@));
                }
                Some(l)
            },
            None => None,
        }
    }
}

} // verus!
