//! The console report: the lines the header, each repository's result and
//! the summary print.
pub mod badge;
pub mod theme;

use vstd::prelude::*;
use crate::text::{
    contains, contains_str, dec, dec_string, join, join_strings, owned, parse_unsigned,
    parse_usize, repeat, repeat_str, split_tokens, tokens, trim, trim_str, views, Sep,
};
use badge::SyncStatus;
use crate::clock::{TimeKind, format_of, local_render, local_time};
use theme::{
    Theme, bold_code, cyan_code, dim_code, green_code, lowercase, red_code, reset_code,
    to_lowercase, yellow_code,
};

verus! {

/// The widest separator line.
pub const MAX_WIDTH: usize = 78;

#[derive(Clone, Copy)]
pub struct Ui {
    pub theme: Theme,
    pub silent: bool,
    pub compact: bool,
    pub use_color: bool,
    pub width: usize,
}

/// What a `Ui` prints of `lines`: nothing when silent.
pub open spec fn shown(ui: Ui, lines: Seq<Seq<char>>) -> Seq<Seq<char>> {
    if ui.silent {
        seq![]
    } else {
        lines
    }
}

/// The separator: `width` box-drawing dashes, or ASCII dashes outside a
/// UTF-8 locale.
pub open spec fn sep_line(width: usize, utf8: bool) -> Seq<char> {
    repeat(
        if utf8 {
            "─"@
        } else {
            "-"@
        },
        width as nat,
    )
}

pub open spec fn header_lines(ui: Ui, flags: Seq<Seq<char>>, ts: Seq<char>, utf8: bool) -> Seq<
    Seq<char>,
> {
    let t = ui.theme;
    let suffix = if flags.len() == 0 {
        seq![]
    } else {
        "  "@ + dim_code(t) + "("@ + join(flags, ", "@) + ")"@ + reset_code(t)
    };
    seq![
        seq![],
        " "@ + bold_code(t) + cyan_code(t) + "OBSIDIAN SYNC"@ + reset_code(t) + "  "@ + dim_code(t)
            + ts + reset_code(t) + suffix,
        sep_line(ui.width, utf8),
    ]
}

/// The first line of one repository's result: position, name, badge and
/// the seconds it took when not zero.
pub open spec fn result_head(
    ui: Ui,
    idx: usize,
    total: usize,
    name: Seq<char>,
    status: SyncStatus,
    elapsed: u64,
) -> Seq<char> {
    let t = ui.theme;
    let badge = status.color_spec(t) + status.badge_spec() + reset_code(t);
    let et = if elapsed > 0 {
        " "@ + dim_code(t) + dec(elapsed as nat) + "s"@ + reset_code(t)
    } else {
        seq![]
    };
    " "@ + dim_code(t) + "["@ + dec(idx as nat) + "/"@ + dec(total as nat) + "]"@ + reset_code(t)
        + " "@ + bold_code(t) + name + reset_code(t) + " "@ + badge + et
}

/// The lines of one repository's result.
pub open spec fn result_lines(
    ui: Ui,
    idx: usize,
    total: usize,
    name: Seq<char>,
    status: SyncStatus,
    sync_info: Seq<char>,
    elapsed: u64,
    note: Option<Seq<char>>,
) -> Seq<Seq<char>> {
    let t = ui.theme;
    let details = if ui.compact {
        seq![]
    } else {
        seq![
            "        "@ + dim_code(t) + sync_info + reset_code(t),
            "        "@ + dim_code(t) + "↳ "@ + status.description_spec() + reset_code(t),
        ]
    };
    let noted = match note {
        Some(n) => seq!["        "@ + dim_code(t) + "↳ "@ + n + reset_code(t)],
        None => seq![],
    };
    let tail = if ui.compact {
        seq![]
    } else {
        seq![seq![]]
    };
    seq![result_head(ui, idx, total, name, status, elapsed)] + details + noted + tail
}

pub open spec fn error_lines(errors: Seq<Seq<char>>) -> Seq<Seq<char>>
    decreases errors.len(),
{
    if errors.len() == 0 {
        seq![]
    } else {
        error_lines(errors.drop_last()).push("  - "@ + errors.last())
    }
}

pub open spec fn summary_lines(
    ui: Ui,
    ok: usize,
    warn: usize,
    err: usize,
    duration: u64,
    errors: Seq<Seq<char>>,
    utf8: bool,
) -> Seq<Seq<char>> {
    let t = ui.theme;
    let totals = " "@ + bold_code(t) + "ИТОГ"@ + reset_code(t) + "  "@ + green_code(t) + "OK:"@
        + dec(ok as nat) + reset_code(t) + "  "@ + yellow_code(t) + "WARN:"@ + dec(warn as nat)
        + reset_code(t) + "  "@ + red_code(t) + "FAIL:"@ + dec(err as nat) + reset_code(t)
        + "  "@ + dim_code(t) + "TIME:"@ + dec(duration as nat) + "s"@ + reset_code(t);
    let listed = if errors.len() == 0 {
        seq![]
    } else {
        seq![seq![], " "@ + red_code(t) + bold_code(t) + "Ошибки:"@ + reset_code(t)]
            + error_lines(errors)
    };
    seq![sep_line(ui.width, utf8), totals] + listed + seq![seq![]]
}

/// The width used: the terminal's columns capped at 78, and 78 when unknown.
pub open spec fn width_of(raw: usize) -> usize {
    if raw == 0 {
        MAX_WIDTH
    } else if raw < MAX_WIDTH {
        raw
    } else {
        MAX_WIDTH
    }
}

/// A positive number of columns parsed from the text.
pub open spec fn positive_columns(s: Seq<char>) -> Option<usize> {
    match parse_unsigned(s, usize::MAX as nat) {
        Some(n) => if n > 0 {
            Some(n as usize)
        } else {
            None
        },
        None => None,
    }
}

/// The terminal's columns: `$COLUMNS` when it holds a positive number, else
/// the second field of `stty size` when that is a positive number, else 80.
pub open spec fn raw_width(columns: Option<Seq<char>>, stty: Option<Seq<char>>) -> usize {
    let from_env = match columns {
        Some(c) => positive_columns(c),
        None => None,
    };
    let from_stty = match stty {
        Some(s) => {
            let fields = tokens(Sep::Whitespace, trim(s));
            if fields.len() >= 2 {
                positive_columns(fields[1])
            } else {
                None
            }
        },
        None => None,
    };
    match from_env {
        Some(n) => n,
        None => match from_stty {
            Some(n) => n,
            None => 80,
        },
    }
}

/// The locale in force: the first of `LC_ALL`, `LC_CTYPE`, `LANG` that is
/// set, else empty.
pub open spec fn locale_of(
    lc_all: Option<Seq<char>>,
    lc_ctype: Option<Seq<char>>,
    lang: Option<Seq<char>>,
) -> Seq<char> {
    match lc_all {
        Some(v) => v,
        None => match lc_ctype {
            Some(v) => v,
            None => match lang {
                Some(v) => v,
                None => seq![],
            },
        },
    }
}

pub open spec fn opt_view(o: Option<String>) -> Option<Seq<char>> {
    match o {
        Some(s) => Some(s@),
        None => None,
    }
}

fn keep(ui: &Ui, lines: Vec<String>) -> (r: Vec<String>)
    ensures
        views(r@) == shown(*ui, views(lines@)),
{
    if ui.silent {
        let v: Vec<String> = Vec::new();
        assert(views(v@) =~= seq![]);
        v
    } else {
        lines
    }
}

fn push_line(v: &mut Vec<String>, s: String)
    ensures
        views(final(v)@) == views(old(v)@).push(s@),
{
    let ghost before = v@;
    v.push(s);
    assert(views(v@) =~= views(before).push(s@));
}

impl Ui {
    /// The report's settings: colour only on a terminal without `NO_COLOR`,
    /// and the plain theme without colour.
    pub fn new(theme: Theme, silent: bool, compact: bool, stdout_is_tty: bool, no_color: bool, width: usize) -> (u: Ui)
        ensures
            u.use_color == (stdout_is_tty && !no_color),
            u.theme == (if u.use_color {
                theme
            } else {
                Theme::Plain
            }),
            u.silent == silent,
            u.compact == compact,
            u.width == width,
    {
        let use_color = stdout_is_tty && !no_color;
        let theme = if use_color {
            theme
        } else {
            Theme::Plain
        };
        Ui { theme, silent, compact, use_color, width }
    }

    /// What `out` prints of one message: the message, or nothing when silent.
    pub fn out(&self, msg: &str) -> (r: Vec<String>)
        ensures
            views(r@) == shown(*self, seq![msg@]),
    {
        let mut v = Vec::new();
        push_line(&mut v, owned(msg));
        assert(views(v@) =~= seq![msg@]);
        keep(self, v)
    }

    pub fn sep(&self, utf8: bool) -> (r: String)
        ensures
            r@ == sep_line(self.width, utf8),
    {
        let ch = if utf8 {
            "─"
        } else {
            "-"
        };
        repeat_str(ch, self.width)
    }

    /// The header's lines now: with some local time written as the header
    /// writes it, and the active flags;
    /// `None` when the clock cannot be read.
    pub fn header(&self, flags: &Vec<String>, utf8: bool) -> (r: Option<Vec<String>>)
        ensures
            r matches Some(v) ==> exists|t: (i64, u32, i32)| views(v@) == shown(
                *self,
                header_lines(*self, views(flags@), #[trigger] local_render(t, format_of(TimeKind::Header)), utf8),
            ),
    {
        match local_time(TimeKind::Header) {
            Some(ts) => {
                let v = self.header_at(flags, ts.as_str(), utf8);
                proof {
                    let t = choose|t: (i64, u32, i32)| ts@ == #[trigger] local_render(t, format_of(TimeKind::Header));
                    assert(views(v@) == shown(*self, header_lines(*self, views(flags@), local_render(t, format_of(TimeKind::Header)), utf8)));
                }
                Some(v)
            },
            None => None,
        }
    }

    /// The header's lines, with the time of day `ts` and the active flags.
    pub fn header_at(&self, flags: &Vec<String>, ts: &str, utf8: bool) -> (r: Vec<String>)
        ensures
            views(r@) == shown(*self, header_lines(*self, views(flags@), ts@, utf8)),
    {
        let t = &self.theme;
        let mut suffix = String::new();
        if flags.len() > 0 {
            suffix.append("  ");
            suffix.append(t.dim());
            suffix.append("(");
            let joined = join_strings(flags, ", ");
            suffix.append(joined.as_str());
            suffix.append(")");
            suffix.append(t.reset());
        }
        let mut title = owned(" ");
        title.append(t.bold());
        title.append(t.cyan());
        title.append("OBSIDIAN SYNC");
        title.append(t.reset());
        title.append("  ");
        title.append(t.dim());
        title.append(ts);
        title.append(t.reset());
        title.append(suffix.as_str());
        let mut v = Vec::new();
        push_line(&mut v, String::new());
        push_line(&mut v, title);
        push_line(&mut v, self.sep(utf8));
        assert(views(v@) =~= header_lines(*self, views(flags@), ts@, utf8));
        keep(self, v)
    }

    /// The lines reporting one repository.
    pub fn repo_result(
        &self,
        idx: usize,
        total: usize,
        name: &str,
        status: SyncStatus,
        sync_info: &str,
        elapsed: u64,
        note: Option<&str>,
    ) -> (r: Vec<String>)
        ensures
            views(r@) == shown(
                *self,
                result_lines(
                    *self,
                    idx,
                    total,
                    name@,
                    status,
                    sync_info@,
                    elapsed,
                    match note {
                        Some(n) => Some(n@),
                        None => None,
                    },
                ),
            ),
    {
        let t = &self.theme;
        let mut first = owned(" ");
        first.append(t.dim());
        first.append("[");
        first.append(dec_string(idx as u64).as_str());
        first.append("/");
        first.append(dec_string(total as u64).as_str());
        first.append("]");
        first.append(t.reset());
        first.append(" ");
        first.append(t.bold());
        first.append(name);
        first.append(t.reset());
        first.append(" ");
        let mut badge = owned(status.color(t));
        badge.append(status.badge());
        badge.append(t.reset());
        let mut et = String::new();
        if elapsed > 0 {
            et.append(" ");
            et.append(t.dim());
            et.append(dec_string(elapsed).as_str());
            et.append("s");
            et.append(t.reset());
        }
        let ghost pre = first@;
        first.append(badge.as_str());
        first.append(et.as_str());
        assert(first@ =~= result_head(*self, idx, total, name@, status, elapsed));
        let mut v = Vec::new();
        push_line(&mut v, first);
        if !self.compact {
            let mut info = owned("        ");
            info.append(t.dim());
            info.append(sync_info);
            info.append(t.reset());
            push_line(&mut v, info);
            let mut desc = owned("        ");
            desc.append(t.dim());
            desc.append("↳ ");
            desc.append(status.description());
            desc.append(t.reset());
            push_line(&mut v, desc);
        }
        match note {
            Some(n) => {
                let mut l = owned("        ");
                l.append(t.dim());
                l.append("↳ ");
                l.append(n);
                l.append(t.reset());
                push_line(&mut v, l);
            },
            None => {},
        }
        if !self.compact {
            push_line(&mut v, String::new());
        }
        let ghost note_v = match note {
            Some(n) => Some(n@),
            None => None,
        };
        assert(views(v@) =~= result_lines(
            *self,
            idx,
            total,
            name@,
            status,
            sync_info@,
            elapsed,
            note_v,
        ));
        keep(self, v)
    }

    /// The summary's lines.
    pub fn summary(
        &self,
        ok: usize,
        warn: usize,
        err: usize,
        duration: u64,
        errors: &Vec<String>,
        utf8: bool,
    ) -> (r: Vec<String>)
        ensures
            views(r@) == shown(
                *self,
                summary_lines(*self, ok, warn, err, duration, views(errors@), utf8),
            ),
    {
        let t = &self.theme;
        let mut v = Vec::new();
        push_line(&mut v, self.sep(utf8));
        let mut l = owned(" ");
        l.append(t.bold());
        l.append("ИТОГ");
        l.append(t.reset());
        l.append("  ");
        l.append(t.green());
        l.append("OK:");
        l.append(dec_string(ok as u64).as_str());
        l.append(t.reset());
        l.append("  ");
        l.append(t.yellow());
        l.append("WARN:");
        l.append(dec_string(warn as u64).as_str());
        l.append(t.reset());
        l.append("  ");
        l.append(t.red());
        l.append("FAIL:");
        l.append(dec_string(err as u64).as_str());
        l.append(t.reset());
        l.append("  ");
        l.append(t.dim());
        l.append("TIME:");
        l.append(dec_string(duration).as_str());
        l.append("s");
        l.append(t.reset());
        push_line(&mut v, l);
        let ghost head = views(v@);
        if errors.len() > 0 {
            push_line(&mut v, String::new());
            let mut h = owned(" ");
            h.append(t.red());
            h.append(t.bold());
            h.append("Ошибки:");
            h.append(t.reset());
            push_line(&mut v, h);
            let ghost mid = views(v@);
            let mut i: usize = 0;
            assert(views(errors@).take(0) =~= seq![]);
            assert(views(v@) =~= mid + error_lines(views(errors@).take(0)));
            while i < errors.len()
                invariant
                    i <= errors@.len(),
                    views(v@) == mid + error_lines(views(errors@).take(i as int)),
                decreases errors.len() - i,
            {
                let mut e = owned("  - ");
                e.append(errors[i].as_str());
                let ghost ev = views(errors@);
                assert(ev.take(i + 1).drop_last() =~= ev.take(i as int));
                assert(ev.take(i + 1).last() == errors@[i as int]@);
                push_line(&mut v, e);
                assert(views(v@) =~= mid + error_lines(views(errors@).take(i + 1)));
                i = i + 1;
            }
            assert(views(errors@).take(errors@.len() as int) =~= views(errors@));
        }
        push_line(&mut v, String::new());
        assert(views(v@) =~= summary_lines(*self, ok, warn, err, duration, views(errors@), utf8));
        keep(self, v)
    }
}

/// `--silent` prints nothing: whatever lines a silent report is given, it
/// shows none of them.
pub proof fn lemma_silent_prints_nothing(ui: Ui, lines: Seq<Seq<char>>)
    requires
        ui.silent,
    ensures
        shown(ui, lines) == Seq::<Seq<char>>::empty(),
{
}

/// The separator is at least one column and at most 78 wide, and exactly
/// the terminal's width when that is between.
pub proof fn lemma_width_bounded(raw: usize)
    ensures
        1 <= width_of(raw) <= MAX_WIDTH,
        1 <= raw <= MAX_WIDTH ==> width_of(raw) == raw,
{
}

/// The width used for a terminal of `raw` columns.
pub fn detect_width(raw: usize) -> (w: usize)
    ensures
        w == width_of(raw),
{
    if raw == 0 {
        MAX_WIDTH
    } else if raw < MAX_WIDTH {
        raw
    } else {
        MAX_WIDTH
    }
}

fn columns_in(s: &str) -> (r: Option<usize>)
    ensures
        r == positive_columns(s@),
{
    match parse_usize(s) {
        Some(n) => if n > 0 {
            Some(n)
        } else {
            None
        },
        None => None,
    }
}

/// The terminal's columns from `$COLUMNS` and from the output of a
/// successful `stty size` (`None` where unavailable).
pub fn detect_width_raw(columns: Option<String>, stty: Option<String>) -> (w: usize)
    ensures
        w == raw_width(opt_view(columns), opt_view(stty)),
{
    match &columns {
        Some(c) => match columns_in(c.as_str()) {
            Some(n) => {
                return n;
            },
            None => {},
        },
        None => {},
    }
    match &stty {
        Some(s) => {
            let t = trim_str(s.as_str());
            let fields = split_tokens(t.as_str(), Sep::Whitespace);
            if fields.len() >= 2 {
                assert(views(fields@)[1] == fields@[1]@);
                match columns_in(fields[1].as_str()) {
                    Some(n) => {
                        return n;
                    },
                    None => {},
                }
            }
        },
        None => {},
    }
    80
}

/// The locale in force, from the values of `LC_ALL`, `LC_CTYPE` and `LANG`.
pub fn locale_setting(lc_all: Option<String>, lc_ctype: Option<String>, lang: Option<String>) -> (r:
    String)
    ensures
        r@ == locale_of(opt_view(lc_all), opt_view(lc_ctype), opt_view(lang)),
{
    match lc_all {
        Some(v) => v,
        None => match lc_ctype {
            Some(v) => v,
            None => match lang {
                Some(v) => v,
                None => String::new(),
            },
        },
    }
}

/// A UTF-8 locale: its name holds "utf" in any case.
pub fn is_utf8_locale(locale: &str) -> (r: bool)
    ensures
        r == contains(lowercase(locale@), "utf"@),
        theme::is_ascii_text(locale@) ==> r == contains(theme::ascii_lower(locale@), "utf"@),
{
    let low = to_lowercase(locale);
    contains_str(low.as_str(), "utf")
}

} // verus!
