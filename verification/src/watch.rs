//! Watch mode: a sync of every repository again and again, an interval apart.
use vstd::prelude::*;
use crate::text::{
    cat, dec, dec_string, is_digit, is_ws, lemma_dec_parses, lemma_parse_dec, owned, parse_u64,
    parse_unsigned, to_chars, trim, trim_end, trim_start, trim_str, views,
};
use crate::ui::{Ui, shown};
use crate::ui::theme::{cyan_code, dim_code, green_code, reset_code};

verus! {

/// The number and the unit (seconds per unit) of an interval: a trailing
/// `h`, `m` or `s` is the unit, else seconds.
pub open spec fn interval_parts(t: Seq<char>) -> (Seq<char>, nat) {
    if t.len() > 0 && t.last() == 'h' {
        (t.drop_last(), 3600)
    } else if t.len() > 0 && t.last() == 'm' {
        (t.drop_last(), 60)
    } else if t.len() > 0 && t.last() == 's' {
        (t.drop_last(), 1)
    } else {
        (t, 1)
    }
}

/// The seconds an interval such as "15m", "1h", "30s" or "90" stands for,
/// or the reason it is refused.
pub open spec fn interval_of(s: Seq<char>) -> Result<nat, Seq<char>> {
    let t = trim(s);
    if t.len() == 0 {
        Err("пустой интервал"@)
    } else {
        let (num, mul) = interval_parts(t);
        match parse_unsigned(trim(num), u64::MAX as nat) {
            None => Err("не число в интервале: "@ + t),
            Some(n) => if n == 0 {
                Err("интервал должен быть > 0"@)
            } else {
                Ok(n * mul)
            },
        }
    }
}

/// The interval's seconds fit in a `u64` (larger ones overflow the
/// multiplication).
pub open spec fn interval_fits(s: Seq<char>) -> bool {
    match interval_of(s) {
        Ok(v) => v <= u64::MAX,
        Err(_) => true,
    }
}

/// The seconds one unit stands for.
pub open spec fn unit_seconds(unit: char) -> nat {
    if unit == 'h' {
        3600
    } else if unit == 'm' {
        60
    } else {
        1
    }
}

proof fn lemma_trim_plain(s: Seq<char>)
    requires
        s.len() > 0,
        !is_ws(s[0]),
        !is_ws(s.last()),
    ensures
        trim(s) == s,
{
    assert(trim_start(s) == s);
    assert(trim_end(s) == s);
}

/// A count written out, with or without a unit, is read back: `"<n>"` is
/// `n` seconds, and `"<n>s"`, `"<n>m"`, `"<n>h"` are `n` seconds, minutes or
/// hours.
pub proof fn lemma_interval_read_back(n: u64, unit: char)
    requires
        n > 0,
        unit == 's' || unit == 'm' || unit == 'h',
    ensures
        interval_of(dec(n as nat)) == Ok::<nat, Seq<char>>(n as nat),
        interval_of(dec(n as nat) + seq![unit]) == Ok::<nat, Seq<char>>((n as nat) * unit_seconds(unit)),
{
    let d = dec(n as nat);
    lemma_dec_parses(n as nat);
    lemma_parse_dec(n as nat, u64::MAX as nat);
    assert(is_digit(d[0]));
    assert(is_digit(d[d.len() - 1]));
    lemma_trim_plain(d);
    let t = d + seq![unit];
    assert(t[0] == d[0]);
    assert(t.last() == unit);
    lemma_trim_plain(t);
    assert(t.drop_last() =~= d);
    if d.last() == 'h' || d.last() == 'm' || d.last() == 's' {
        assert(is_digit(d.last()));
    }
}

fn split_unit(t: &str) -> (r: (String, u64))
    ensures
        (r.0@, r.1 as nat) == interval_parts(t@),
{
    let v = to_chars(t);
    let n = v.len();
    if n > 0 && v[n - 1] == 'h' {
        (crate::text::from_chars(&v, 0, n - 1), 3600)
    } else if n > 0 && v[n - 1] == 'm' {
        (crate::text::from_chars(&v, 0, n - 1), 60)
    } else if n > 0 && v[n - 1] == 's' {
        (crate::text::from_chars(&v, 0, n - 1), 1)
    } else {
        (crate::text::from_chars(&v, 0, n), 1)
    }
}

/// The interval's seconds, or `None` when they would not fit in a `u64`.
fn interval_value(s: &str) -> (r: Result<Option<u64>, String>)
    ensures
        match r {
            Ok(Some(v)) => interval_of(s@) == Ok::<nat, Seq<char>>(v as nat),
            Ok(None) => interval_of(s@) matches Ok(v) && v > u64::MAX,
            Err(e) => interval_of(s@) == Err::<nat, Seq<char>>(e@),
        },
{
    let t = trim_str(s);
    if t.unicode_len() == 0 {
        return Err(owned("пустой интервал"));
    }
    let (num, mul) = split_unit(t.as_str());
    let nt = trim_str(num.as_str());
    match parse_u64(nt.as_str()) {
        None => Err(cat("не число в интервале: ", t.as_str())),
        Some(n) => {
            if n == 0 {
                Err(owned("интервал должен быть > 0"))
            } else {
                match n.checked_mul(mul) {
                    Some(v) => Ok(Some(v)),
                    None => Ok(None),
                }
            }
        },
    }
}

/// Whether `parse_interval` accepts `s` without overflow.
pub fn interval_in_range(s: &str) -> (r: bool)
    ensures
        r == interval_fits(s@),
{
    match interval_value(s) {
        Ok(None) => false,
        _ => true,
    }
}

/// Parses "15m" / "1h" / "30s" / "90" (seconds) into seconds.
pub fn parse_interval(s: &str) -> (r: Result<u64, String>)
    requires
        interval_fits(s@),
    ensures
        match r {
            Ok(v) => interval_of(s@) == Ok::<nat, Seq<char>>(v as nat),
            Err(e) => interval_of(s@) == Err::<nat, Seq<char>>(e@),
        },
{
    match interval_value(s) {
        Ok(Some(v)) => Ok(v),
        Ok(None) => Ok(0),
        Err(e) => Err(e),
    }
}

/// A running watch: its interval and the iterations begun.
pub struct Watch {
    pub secs: u64,
    pub iter: u64,
}

/// What starting a watch prints and logs.
pub struct WatchStart {
    pub watch: Watch,
    pub lines: Vec<String>,
    pub log: String,
}

pub open spec fn watch_on_line(ui: Ui, secs: u64) -> Seq<char> {
    let t = ui.theme;
    " "@ + green_code(t) + "Watch ON"@ + reset_code(t) + " — интервал "@ + cyan_code(t) + dec(
        secs as nat,
    ) + "s"@ + reset_code(t) + ", "@ + dim_code(t) + "выход: Ctrl+C"@ + reset_code(t)
}

pub open spec fn iteration_line(ui: Ui, n: u64) -> Seq<char> {
    let t = ui.theme;
    " "@ + dim_code(t) + "── итерация "@ + dec(n as nat) + " ──"@ + reset_code(t)
}

/// Starts a watch with the given interval: the announcement and the log
/// line, or the interval's error.
pub fn run(interval: &str, ui: &Ui) -> (r: Result<WatchStart, String>)
    requires
        interval_fits(interval@),
    ensures
        match r {
            Ok(w) => interval_of(interval@) == Ok::<nat, Seq<char>>(w.watch.secs as nat)
                && w.watch.iter == 0 && views(w.lines@) == shown(*ui, seq![watch_on_line(*ui, w.watch.secs)])
                && w.log@ == "Watch started, interval="@ + dec(w.watch.secs as nat) + "s"@,
            Err(e) => interval_of(interval@) == Err::<nat, Seq<char>>(e@),
        },
{
    let secs = match parse_interval(interval) {
        Ok(v) => v,
        Err(e) => {
            return Err(e);
        },
    };
    let t = &ui.theme;
    let mut l = owned(" ");
    l.append(t.green());
    l.append("Watch ON");
    l.append(t.reset());
    l.append(" — интервал ");
    l.append(t.cyan());
    l.append(dec_string(secs).as_str());
    l.append("s");
    l.append(t.reset());
    l.append(", ");
    l.append(t.dim());
    l.append("выход: Ctrl+C");
    l.append(t.reset());
    let lines = ui.out(l.as_str());
    let mut log = owned("Watch started, interval=");
    log.append(dec_string(secs).as_str());
    log.append("s");
    Ok(WatchStart { watch: Watch { secs, iter: 0 }, lines, log })
}

impl Watch {
    /// Begins the next iteration: what it prints.
    pub fn next_iteration(&mut self, ui: &Ui) -> (r: Vec<String>)
        requires
            old(self).iter < u64::MAX,
        ensures
            final(self).iter == old(self).iter + 1,
            final(self).secs == old(self).secs,
            views(r@) == shown(*ui, seq![iteration_line(*ui, final(self).iter)]),
    {
        self.iter = self.iter + 1;
        let t = &ui.theme;
        let mut l = owned(" ");
        l.append(t.dim());
        l.append("── итерация ");
        l.append(dec_string(self.iter).as_str());
        l.append(" ──");
        l.append(t.reset());
        ui.out(l.as_str())
    }

    /// Begins the next round: what it prints, the repositories to sync in
    /// order (each with its position and the count, as a sync of all of them
    /// is numbered), and the seconds to pause after them. The syncs' results
    /// do not change the round.
    pub fn next_round(&mut self, ui: &Ui, repos: &Vec<String>) -> (r: Round)
        requires
            old(self).iter < u64::MAX,
        ensures
            final(self).iter == old(self).iter + 1,
            final(self).secs == old(self).secs,
            views(r.lines@) == shown(*ui, seq![iteration_line(*ui, final(self).iter)]),
            r.pause_secs == old(self).secs,
            r.syncs@.len() == repos@.len(),
            forall|i: int|
                0 <= i < repos@.len() ==> (#[trigger] r.syncs@[i]).0@ == repos@[i]@ && r.syncs@[i].1 == i + 1
                    && r.syncs@[i].2 == repos@.len(),
    {
        let lines = self.next_iteration(ui);
        let n = repos.len();
        let mut syncs: Vec<(String, usize, usize)> = Vec::new();
        let mut i: usize = 0;
        while i < n
            invariant
                n == repos@.len(),
                i <= n,
                syncs@.len() == i,
                forall|j: int|
                    0 <= j < i ==> (#[trigger] syncs@[j]).0@ == repos@[j]@ && syncs@[j].1 == j + 1
                        && syncs@[j].2 == n,
            decreases n - i,
        {
            syncs.push((repos[i].clone(), i + 1, n));
            i = i + 1;
        }
        Round { lines, syncs, pause_secs: self.secs }
    }
}

/// One round of a watch: the lines it prints, the repositories to sync
/// (path, position, count) in order, and the pause after them in seconds.
pub struct Round {
    pub lines: Vec<String>,
    pub syncs: Vec<(String, usize, usize)>,
    pub pause_secs: u64,
}

} // verus!
