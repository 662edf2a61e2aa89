//! The clock: local time written in the formats the sync uses, the Unix
//! time, and the age at which a conflict backup is removed.
use vstd::prelude::*;
use crate::config::CONFLICT_MAX_AGE_DAYS;

verus! {

/// The ways the local time is written.
#[derive(Debug, Clone, Copy, PartialEq, Eq, Structural)]
pub enum TimeKind {
    /// In a sync commit's message: `%Y-%m-%d %H:%M`.
    Commit,
    /// At the start of a log line: `%Y-%m-%d %H:%M:%S`.
    LogLine,
    /// In the console header: `%H:%M  %d/%m/%Y`.
    Header,
    /// In a conflict backup's file name: `%Y%m%d_%H%M%S`.
    Backup,
}

pub open spec fn format_of(k: TimeKind) -> Seq<char> {
    match k {
        TimeKind::Commit => "%Y-%m-%d %H:%M"@,
        TimeKind::LogLine => "%Y-%m-%d %H:%M:%S"@,
        TimeKind::Header => "%H:%M  %d/%m/%Y"@,
        TimeKind::Backup => "%Y%m%d_%H%M%S"@,
    }
}

/// The formats handed to chrono: each uses only the specifiers `%Y %m %d
/// %H %M %S`, which chrono always writes.
pub open spec fn known_format(f: Seq<char>) -> bool {
    exists|k: TimeKind| format_of(k) == f
}

pub fn format_string(k: TimeKind) -> (r: &'static str)
    ensures
        r@ == format_of(k),
{
    match k {
        TimeKind::Commit => "%Y-%m-%d %H:%M",
        TimeKind::LogLine => "%Y-%m-%d %H:%M:%S",
        TimeKind::Header => "%H:%M  %d/%m/%Y",
        TimeKind::Backup => "%Y%m%d_%H%M%S",
    }
}

/// `std::time::SystemTime`, carried through as an opaque value.
#[verifier::external_type_specification]
#[verifier::external_body]
pub struct ExSystemTime(std::time::SystemTime);

/// Calls `SystemTime::now`. The reading depends on the clock, so nothing is
/// stated of it.
#[verifier::external_body]
fn system_now() -> std::time::SystemTime {
    std::time::SystemTime::now()
}

/// Calls `SystemTime::duration_since(UNIX_EPOCH)`: the time since the Unix
/// epoch, `None` for its `Err` (a reading before the epoch). The value
/// depends on the clock, so nothing more is stated.
#[verifier::external_body]
fn since_epoch(t: &std::time::SystemTime) -> Option<core::time::Duration> {
    match t.duration_since(std::time::UNIX_EPOCH) {
        Ok(d) => Some(d),
        Err(_) => None,
    }
}

/// Calls `Duration::as_secs`: the whole seconds of an opaque duration.
#[verifier::external_body]
fn whole_secs(d: &core::time::Duration) -> u64 {
    d.as_secs()
}

/// Calls `Duration::subsec_nanos`: the nanoseconds past the whole seconds,
/// which the documentation says are always below one billion.
#[verifier::external_body]
fn subsec(d: &core::time::Duration) -> (r: u32)
    ensures
        r < 1_000_000_000,
{
    d.subsec_nanos()
}

/// A time written in the local zone: `t` is the seconds and nanoseconds
/// since the Unix epoch and the zone's offset east of UTC in seconds,
/// written as chrono's format `fmt` says.
pub uninterp spec fn local_render(t: (i64, u32, i32), fmt: Seq<char>) -> Seq<char>;

/// Calls `DateTime::from_timestamp(secs, nanos)`, converts the result with
/// `with_timezone(&Local)` and writes it with `format(fmt).to_string()`;
/// `None` where `from_timestamp` gives `None` (a time chrono cannot hold).
/// The text is `local_render` of the time, the zone's offset then and the
/// format; the offset comes from the machine's time zone, so only that some
/// offset was used is stated, and when `None` comes back is left unsaid.
/// The `requires` keeps to formats whose specifiers chrono always writes
/// (others make `to_string` panic).
#[verifier::external_body]
fn format_local(secs: i64, nanos: u32, fmt: &str) -> (r: Option<String>)
    requires
        known_format(fmt@),
    ensures
        r matches Some(s) ==> exists|off: i32| s@ == #[trigger] local_render((secs, nanos, off), fmt@),
{
    match chrono::DateTime::from_timestamp(secs, nanos) {
        Some(t) => Some(t.with_timezone(&chrono::Local).format(fmt).to_string()),
        None => None,
    }
}

/// The Unix time now in whole seconds and nanoseconds, `None` when the clock
/// reads before the epoch or beyond an `i64` of seconds.
fn epoch_now() -> (r: Option<(i64, u32)>)
    ensures
        r matches Some(p) ==> p.0 >= 0 && p.1 < 1_000_000_000,
{
    let now = system_now();
    match since_epoch(&now) {
        None => None,
        Some(d) => {
            let secs = whole_secs(&d);
            if secs > 9_223_372_036_854_775_807u64 {
                None
            } else {
                Some((secs as i64, subsec(&d)))
            }
        },
    }
}

/// The local time now, written as `k` says: some time rendered with `k`'s
/// format; `None` when the clock reads before the Unix epoch or the time
/// cannot be written.
pub fn local_time(k: TimeKind) -> (r: Option<String>)
    ensures
        r matches Some(s) ==> exists|t: (i64, u32, i32)| s@ == #[trigger] local_render(t, format_of(k)),
{
    match epoch_now() {
        None => None,
        Some((secs, nanos)) => {
            let f = format_string(k);
            assert(format_of(k) == f@);
            let r = format_local(secs, nanos, f);
            proof {
                if let Some(s) = &r {
                    let off = choose|off: i32| s@ == #[trigger] local_render((secs, nanos, off), f@);
                    assert(s@ == local_render((secs, nanos, off), format_of(k)));
                }
            }
            r
        },
    }
}

/// The Unix time in whole seconds; `None` before the epoch.
pub fn unix_seconds() -> (r: Option<i64>)
    ensures
        r matches Some(s) ==> s >= 0,
{
    match epoch_now() {
        None => None,
        Some((s, _)) => Some(s),
    }
}

/// A time in nanoseconds from whole seconds and the nanoseconds past them.
pub open spec fn in_nanos(secs: int, nanos: int) -> int {
    secs * 1_000_000_000 + nanos
}

/// The Unix time in nanoseconds; `None` before the epoch.
pub fn unix_nanos() -> (r: Option<i128>)
    ensures
        r matches Some(n) ==> exists|secs: i64, nanos: u32|
            secs >= 0 && nanos < 1_000_000_000 && #[trigger] in_nanos(secs as int, nanos as int) == n,
{
    match epoch_now() {
        None => None,
        Some((s, n)) => {
            let r = s as i128 * 1_000_000_000 + n as i128;
            assert(in_nanos(s as int, n as int) == r);
            Some(r)
        },
    }
}

/// Nanoseconds in the age after which a conflict backup is removed.
pub open spec fn max_age_nanos() -> int {
    CONFLICT_MAX_AGE_DAYS * 86400 * 1_000_000_000
}

/// A file last modified at `modified` (Unix nanoseconds) is removed at
/// `now` when it is older than the cut-off: `now` minus the maximum age.
pub fn is_expired(modified: i128, now: i128) -> (r: bool)
    ensures
        r == (modified < now - max_age_nanos()),
{
    let age: i128 = (CONFLICT_MAX_AGE_DAYS as i128) * 86400 * 1_000_000_000;
    assert(age == max_age_nanos());
    if now < i128::MIN + age {
        false
    } else {
        modified < now - age
    }
}

} // verus!
