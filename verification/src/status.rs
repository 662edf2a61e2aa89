//! The status file other tools read: the outcome of the last sync.
use vstd::prelude::*;
use crate::clock::unix_seconds;
use crate::path::{path_with_extension, with_ext};
use crate::text::{dec, dec_string, i64_string, owned, sdec};

verus! {

/// What to write: `content` goes to `tmp`, which is then renamed to `target`.
pub struct StatusFile {
    pub target: String,
    pub tmp: String,
    pub content: String,
}

pub open spec fn status_text(ts: int, ok: usize, warn: usize, err: usize, total: usize, duration: u64) -> Seq<char> {
    "last_sync="@ + sdec(ts) + ",ok="@ + dec(ok as nat) + ",warn="@ + dec(warn as nat) + ",err="@
        + dec(err as nat) + ",total="@ + dec(total as nat) + ",duration="@ + dec(duration as nat)
        + "\n"@
}

/// The status line for a sync that ended at Unix time `ts`.
pub fn status_line(ts: i64, ok: usize, warn: usize, err: usize, total: usize, duration: u64) -> (r: String)
    ensures
        r@ == status_text(ts as int, ok, warn, err, total, duration),
{
    let mut r = owned("last_sync=");
    r.append(i64_string(ts).as_str());
    r.append(",ok=");
    r.append(dec_string(ok as u64).as_str());
    r.append(",warn=");
    r.append(dec_string(warn as u64).as_str());
    r.append(",err=");
    r.append(dec_string(err as u64).as_str());
    r.append(",total=");
    r.append(dec_string(total as u64).as_str());
    r.append(",duration=");
    r.append(dec_string(duration).as_str());
    r.append("\n");
    r
}

/// The status file for a sync that ends now, written through `<path>.tmp`;
/// `None` when the clock reads before the Unix epoch.
pub fn write(path: &str, ok: usize, warn: usize, err: usize, total: usize, duration: u64) -> (f: Option<StatusFile>)
    ensures
        f matches Some(f) ==> {
            &&& f.target@ == path@
            &&& f.tmp@ == with_ext(path@, "tmp"@)
            &&& exists|ts: i64| ts >= 0 && f.content@ == #[trigger] status_text(ts as int, ok, warn, err, total, duration)
        },
{
    match unix_seconds() {
        Some(ts) => {
            let content = status_line(ts, ok, warn, err, total, duration);
            proof {
                reveal_strlit("tmp");
            }
            Some(StatusFile { target: owned(path), tmp: path_with_extension(path, "tmp"), content })
        },
        None => None,
    }
}

} // verus!
