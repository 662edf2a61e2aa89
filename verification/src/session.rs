//! A whole run over all repositories: the flags shown, the checks before
//! syncing, which repositories are synced, and the tally of their outcomes.
use vstd::prelude::*;
use crate::git::{OutcomeView, RunOutcome};
use crate::machine::{
    Effect, EffectView, Event, EventView, Next, NextView, Request, RequestView, Step, StepView,
    add_effect, effect_views, no_effects, one_effect,
};
use crate::path::{file_name_of, path_file_name};
use crate::sync::SyncResult;
use crate::sync_machine::{as_flag, as_outcome};
use crate::text::{
    cat, dec, dec_string, join, join_strings, owned, starts_with, starts_with_str, strings1,
    trim_end_slashes, trim_end_slashes_str, views,
};
use crate::ui::badge::{SyncStatus, status_ok, status_warn};
use crate::ui::{Ui, shown};
use crate::ui::theme::{dim_code, red_code, reset_code, yellow_code};

verus! {

// ------------------------------------------------------------------ header

pub open spec fn flags_of(dry_run: bool, compact: bool, silent: bool) -> Seq<Seq<char>> {
    (if dry_run {
        seq!["dry-run"@]
    } else {
        seq![]
    }) + (if compact {
        seq!["compact"@]
    } else {
        seq![]
    }) + (if silent {
        seq!["silent"@]
    } else {
        seq![]
    })
}

fn push_text(v: &mut Vec<String>, s: &str)
    ensures
        views(final(v)@) == views(old(v)@).push(s@),
{
    let ghost before = v@;
    v.push(owned(s));
    assert(views(v@) =~= views(before).push(s@));
}

/// The flags the header lists.
pub fn run_flags(dry_run: bool, compact: bool, silent: bool) -> (r: Vec<String>)
    ensures
        views(r@) == flags_of(dry_run, compact, silent),
{
    let mut v: Vec<String> = Vec::new();
    assert(views(v@) =~= seq![]);
    if dry_run {
        push_text(&mut v, "dry-run");
    }
    if compact {
        push_text(&mut v, "compact");
    }
    if silent {
        push_text(&mut v, "silent");
    }
    assert(views(v@) =~= flags_of(dry_run, compact, silent));
    v
}

/// What is printed when the lock cannot be taken.
pub fn lock_failed_lines(ui: &Ui, e: &str) -> (r: Vec<String>)
    ensures
        views(r@) == shown(*ui, seq![red_code(ui.theme) + "❌ "@ + e@ + reset_code(ui.theme)]),
{
    let t = &ui.theme;
    let mut l = owned(t.red());
    l.append("❌ ");
    l.append(e);
    l.append(t.reset());
    ui.out(l.as_str())
}

/// What is printed when the network is down: a warning, unless the output is
/// compact or silent.
pub fn offline_lines(ui: &Ui, compact: bool, silent: bool) -> (r: Vec<String>)
    ensures
        views(r@) == (if !compact && !silent {
            shown(*ui, seq!["  "@ + yellow_code(ui.theme) + "⚠️  Offline mode — remote sync skipped"@ + reset_code(ui.theme)])
        } else {
            seq![]
        }),
{
    if !compact && !silent {
        let t = &ui.theme;
        let mut l = owned("  ");
        l.append(t.yellow());
        l.append("⚠️  Offline mode — remote sync skipped");
        l.append(t.reset());
        ui.out(l.as_str())
    } else {
        let v: Vec<String> = Vec::new();
        assert(views(v@) =~= seq![]);
        v
    }
}

/// What is printed when the vaults' folder does not exist.
pub fn root_missing_lines(ui: &Ui, root: &str) -> (r: Vec<String>)
    ensures
        views(r@) == shown(*ui, seq![red_code(ui.theme) + "❌ Root directory not found: "@ + root@ + reset_code(ui.theme)]),
{
    let t = &ui.theme;
    let mut l = owned(t.red());
    l.append("❌ Root directory not found: ");
    l.append(root);
    l.append(t.reset());
    ui.out(l.as_str())
}

/// What is printed when no repository was found.
pub fn no_repos_lines(ui: &Ui, root: &str) -> (r: (Vec<String>, Vec<String>))
    ensures
        views(r.0@) == shown(*ui, seq!["  "@ + yellow_code(ui.theme) + "⚠️  No git repositories found in:"@ + reset_code(ui.theme)]),
        views(r.1@) == shown(*ui, seq!["  "@ + dim_code(ui.theme) + root@ + reset_code(ui.theme)]),
{
    let t = &ui.theme;
    let mut a = owned("  ");
    a.append(t.yellow());
    a.append("⚠️  No git repositories found in:");
    a.append(t.reset());
    let mut b = owned("  ");
    b.append(t.dim());
    b.append(root);
    b.append(t.reset());
    (ui.out(a.as_str()), ui.out(b.as_str()))
}

// ---------------------------------------------------------------- filtering

/// The name a repository path matches by: its folder's name, or nothing.
pub open spec fn folder_name(p: Seq<char>) -> Seq<char> {
    match file_name_of(p) {
        Some(n) => n,
        None => seq![],
    }
}

/// A repository is selected by `--repo` when its path, or its folder's
/// name, equals the filter; trailing slashes are ignored on both paths.
pub open spec fn selected(repo: Seq<char>, filter: Seq<char>) -> bool {
    trim_end_slashes(repo) == trim_end_slashes(filter) || folder_name(repo) == trim_end_slashes(filter)
}

pub open spec fn select_all(repos: Seq<Seq<char>>, filter: Seq<char>) -> Seq<Seq<char>>
    decreases repos.len(),
{
    if repos.len() == 0 {
        seq![]
    } else {
        let rest = select_all(repos.drop_last(), filter);
        if selected(repos.last(), filter) {
            rest.push(repos.last())
        } else {
            rest
        }
    }
}

/// Whether `repo` is named by `filter` exactly: its path, or its folder's
/// name, is the filter (trailing slashes ignored).
pub open spec fn named_exactly(repo: Seq<char>, filter: Seq<char>) -> bool {
    trim_end_slashes(repo) == trim_end_slashes(filter) || folder_name(repo) == trim_end_slashes(filter)
}

/// `--repo` selects exactly the repositories it names: every repository
/// kept is one of the list whose path or folder name equals the filter
/// (trailing slashes ignored), and every such repository is kept; a longer
/// name that only begins with the filter is not.
pub proof fn lemma_selection_exact(repos: Seq<Seq<char>>, filter: Seq<char>)
    ensures
        forall|k: int| 0 <= k < select_all(repos, filter).len() ==> repos.contains(
            #[trigger] select_all(repos, filter)[k],
        ) && named_exactly(select_all(repos, filter)[k], filter),
        forall|i: int| 0 <= i < repos.len() && named_exactly(#[trigger] repos[i], filter) ==> select_all(
            repos,
            filter,
        ).contains(repos[i]),
    decreases repos.len(),
{
    let out = select_all(repos, filter);
    if repos.len() > 0 {
        let pre = repos.drop_last();
        lemma_selection_exact(pre, filter);
        let rest = select_all(pre, filter);
        assert forall|k: int| 0 <= k < out.len() implies repos.contains(#[trigger] out[k]) && named_exactly(out[k], filter) by {
            if k < rest.len() {
                assert(out[k] == rest[k]);
                let j = choose|j: int| 0 <= j < pre.len() && pre[j] == rest[k];
                assert(repos[j] == pre[j]);
            } else {
                assert(out[k] == repos.last());
                assert(repos[repos.len() - 1] == repos.last());
            }
        }
        assert forall|i: int| 0 <= i < repos.len() && named_exactly(#[trigger] repos[i], filter) implies out.contains(repos[i]) by {
            if i < pre.len() {
                assert(pre[i] == repos[i]);
                assert(rest.contains(pre[i]));
                let k = choose|k: int| 0 <= k < rest.len() && rest[k] == pre[i];
                if selected(repos.last(), filter) {
                    assert(out[k] == rest[k]);
                } else {
                    assert(out == rest);
                }
            } else {
                assert(repos[i] == repos.last());
                assert(out[out.len() - 1] == repos.last());
            }
        }
    }
}

fn is_selected(repo: &str, filter: &str) -> (r: bool)
    ensures
        r == selected(repo@, filter@),
{
    let f = trim_end_slashes_str(filter);
    let t = trim_end_slashes_str(repo);
    if crate::text::str_eq(t.as_str(), f.as_str()) {
        return true;
    }
    let name = match path_file_name(repo) {
        Some(n) => n,
        None => String::new(),
    };
    crate::text::str_eq(name.as_str(), f.as_str())
}

/// The repositories `--repo` selects, in order.
pub fn filter_repos(repos: &Vec<String>, filter: &str) -> (r: Vec<String>)
    ensures
        views(r@) == select_all(views(repos@), filter@),
{
    let mut out: Vec<String> = Vec::new();
    let mut i: usize = 0;
    assert(views(repos@).take(0) =~= seq![]);
    while i < repos.len()
        invariant
            i <= repos@.len(),
            views(out@) == select_all(views(repos@).take(i as int), filter@),
        decreases repos.len() - i,
    {
        let ghost rv = views(repos@);
        assert(rv.take(i + 1).drop_last() =~= rv.take(i as int));
        assert(rv.take(i + 1).last() == repos@[i as int]@);
        if is_selected(repos[i].as_str(), filter) {
            let ghost before = out@;
            let c = repos[i].clone();
            out.push(c);
            assert(views(out@) =~= views(before).push(repos@[i as int]@));
        }
        i = i + 1;
    }
    assert(views(repos@).take(repos@.len() as int) =~= views(repos@));
    out
}

/// What is printed when `--repo` selects nothing.
pub fn repo_not_found_lines(ui: &Ui, filter: &str) -> (r: Vec<String>)
    ensures
        views(r@) == shown(*ui, seq![yellow_code(ui.theme) + "⚠️  Repository not found: "@ + trim_end_slashes(filter@) + reset_code(ui.theme)]),
{
    let t = &ui.theme;
    let f = trim_end_slashes_str(filter);
    let mut l = owned(t.yellow());
    l.append("⚠️  Repository not found: ");
    l.append(f.as_str());
    l.append(t.reset());
    ui.out(l.as_str())
}

/// The walk into folders skips `.git` and `node_modules`.
pub fn should_descend(name: &str) -> (r: bool)
    ensures
        r == (name@ != ".git"@ && name@ != "node_modules"@),
{
    !crate::text::str_eq(name, ".git") && !crate::text::str_eq(name, "node_modules")
}

// -------------------------------------------------------------------- tally

/// The outcomes counted so far, and the failures' messages.
pub struct Tally {
    pub ok: usize,
    pub warn: usize,
    pub err: usize,
    pub errors: Vec<String>,
}

pub open spec fn failure_line(ui: Ui, e: Seq<char>) -> Seq<char> {
    " "@ + red_code(ui.theme) + "[ FAIL ]"@ + reset_code(ui.theme) + " "@ + e
}

impl Tally {
    pub fn new() -> (t: Tally)
        ensures
            t.ok == 0 && t.warn == 0 && t.err == 0,
            t.errors@.len() == 0,
    {
        Tally { ok: 0, warn: 0, err: 0, errors: Vec::new() }
    }

    /// Counts one repository's outcome: a success, a warning, or a failure;
    /// a failed sync's message is kept and printed.
    pub fn record(&mut self, ui: &Ui, r: &Result<SyncResult, String>) -> (lines: Vec<String>)
        requires
            old(self).ok + old(self).warn + old(self).err < usize::MAX,
        ensures
            match r {
                Ok(res) => {
                    &&& final(self).ok == old(self).ok + (if status_ok(res.status) { 1int } else { 0 })
                    &&& final(self).warn == old(self).warn + (if !status_ok(res.status) && status_warn(res.status) { 1int } else { 0 })
                    &&& final(self).err == old(self).err + (if !status_ok(res.status) && !status_warn(res.status) { 1int } else { 0 })
                    &&& views(final(self).errors@) == views(old(self).errors@)
                    &&& views(lines@) == Seq::<Seq<char>>::empty()
                },
                Err(e) => {
                    &&& final(self).ok == old(self).ok
                    &&& final(self).warn == old(self).warn
                    &&& final(self).err == old(self).err + 1
                    &&& views(final(self).errors@) == views(old(self).errors@).push(e@)
                    &&& views(lines@) == shown(*ui, seq![failure_line(*ui, e@)])
                },
            },
            final(self).ok + final(self).warn + final(self).err == old(self).ok + old(self).warn + old(self).err + 1,
    {
        match r {
            Ok(res) => {
                if res.status.is_ok() {
                    self.ok = self.ok + 1;
                } else if res.status.is_warn() {
                    self.warn = self.warn + 1;
                } else {
                    self.err = self.err + 1;
                }
                let v: Vec<String> = Vec::new();
                assert(views(v@) =~= seq![]);
                v
            },
            Err(e) => {
                self.err = self.err + 1;
                let ghost before = self.errors@;
                self.errors.push(e.clone());
                assert(views(self.errors@) =~= views(before).push(e@));
                let t = &ui.theme;
                let mut l = owned(" ");
                l.append(t.red());
                l.append("[ FAIL ]");
                l.append(t.reset());
                l.append(" ");
                l.append(e.as_str());
                ui.out(l.as_str())
            },
        }
    }
}

/// The log line that closes a run.
pub fn done_log(ok: usize, warn: usize, err: usize, duration: u64) -> (r: String)
    ensures
        r@ == "=== Sync done: OK="@ + dec(ok as nat) + " WARN="@ + dec(warn as nat) + " ERR="@ + dec(err as nat)
            + " DURATION="@ + dec(duration as nat) + "s ==="@,
{
    let mut r = owned("=== Sync done: OK=");
    r.append(dec_string(ok as u64).as_str());
    r.append(" WARN=");
    r.append(dec_string(warn as u64).as_str());
    r.append(" ERR=");
    r.append(dec_string(err as u64).as_str());
    r.append(" DURATION=");
    r.append(dec_string(duration).as_str());
    r.append("s ===");
    r
}

/// The process exit code: 1 when some repository failed.
pub fn exit_code(err: usize) -> (c: i32)
    ensures
        c == (if err > 0 { 1i32 } else { 0i32 }),
{
    if err > 0 {
        1
    } else {
        0
    }
}

// ------------------------------------------------------------- requirements

/// The programs the sync needs.
pub open spec fn required() -> Seq<Seq<char>> {
    seq!["git"@, "find"@]
}

#[derive(Debug, Clone, Copy, PartialEq, Eq, Structural)]
pub enum ReqPhase {
    Which(usize),
    Version(usize),
    RootDir,
    Done,
}

/// The check that the needed programs exist (and, on Android, that shared
/// storage can be read), as a step machine.
pub struct Requirements {
    pub ui: Ui,
    pub root: String,
    pub android: bool,
    pub missing: Vec<String>,
    pub phase: ReqPhase,
}

pub open spec fn req_step_view(s: Step<bool>) -> StepView<bool> {
    StepView {
        effects: effect_views(s.effects@),
        next: match s.next {
            Next::Ask(r) => NextView::Ask(r@),
            Next::Finish(x) => NextView::Finish(x),
        },
    }
}

pub type ReqTrans = (ReqPhase, Seq<Seq<char>>, StepView<bool>);

pub open spec fn succeeded(o: OutcomeView) -> bool {
    o matches OutcomeView::Exited { code, .. } && code == Some(0i32)
}

pub open spec fn spawn_failed(o: OutcomeView) -> bool {
    o is SpawnFailed
}

pub open spec fn which_cmd(i: int) -> RequestView {
    RequestView::Program { program: "which"@, args: seq![required()[i]] }
}

pub open spec fn version_cmd(i: int) -> RequestView {
    RequestView::Program { program: required()[i], args: seq!["--version"@] }
}

pub open spec fn storage_prefix() -> Seq<char> {
    "/storage/emulated/0/"@
}

/// After the programs were checked: report what is missing, else check
/// Android's shared storage, else succeed.
pub open spec fn after_checks(ui: Ui, root: Seq<char>, android: bool, missing: Seq<Seq<char>>) -> ReqTrans {
    let t = ui.theme;
    if missing.len() > 0 {
        (
            ReqPhase::Done,
            missing,
            StepView {
                effects: seq![EffectView::Print(shown(ui, seq![red_code(t) + "✘ Missing: "@ + join(missing, ", "@) + reset_code(t)]))],
                next: NextView::Finish(false),
            },
        )
    } else if android && starts_with(root, storage_prefix()) {
        (ReqPhase::RootDir, missing, StepView { effects: seq![], next: NextView::Ask(RequestView::IsDir(root)) })
    } else {
        (ReqPhase::Done, missing, StepView { effects: seq![], next: NextView::Finish(true) })
    }
}

pub open spec fn next_program(ui: Ui, root: Seq<char>, android: bool, missing: Seq<Seq<char>>, j: int) -> ReqTrans {
    if j < 2 {
        (ReqPhase::Which(j as usize), missing, StepView { effects: seq![], next: NextView::Ask(which_cmd(j)) })
    } else {
        after_checks(ui, root, android, missing)
    }
}

/// One step of the requirements check.
pub open spec fn req_next(ui: Ui, root: Seq<char>, android: bool, missing: Seq<Seq<char>>, p: ReqPhase, e: EventView) -> ReqTrans {
    let t = ui.theme;
    match p {
        ReqPhase::Which(i) => if i >= 2 || succeeded(as_outcome(e)) {
            next_program(ui, root, android, missing, i + 1)
        } else {
            (ReqPhase::Version(i), missing, StepView { effects: seq![], next: NextView::Ask(version_cmd(i as int)) })
        },
        ReqPhase::Version(i) => if i < 2 && spawn_failed(as_outcome(e)) {
            next_program(ui, root, android, missing.push(required()[i as int]), i + 1)
        } else {
            next_program(ui, root, android, missing, i + 1)
        },
        ReqPhase::RootDir => if as_flag(e) {
            (ReqPhase::Done, missing, StepView { effects: seq![], next: NextView::Finish(true) })
        } else {
            (
                ReqPhase::Done,
                missing,
                StepView {
                    effects: seq![
                        EffectView::Print(shown(ui, seq![red_code(t) + "✘ Cannot access: "@ + root + reset_code(t)])),
                        EffectView::Print(shown(ui, seq![yellow_code(t) + "💡 Run: termux-setup-storage"@ + reset_code(t)])),
                    ],
                    next: NextView::Finish(false),
                },
            )
        },
        ReqPhase::Done => (ReqPhase::Done, missing, StepView { effects: seq![], next: NextView::Finish(true) }),
    }
}

fn program_name(i: usize) -> (r: String)
    requires
        i < 2,
    ensures
        r@ == required()[i as int],
{
    if i == 0 {
        owned("git")
    } else {
        owned("find")
    }
}

fn which_request(i: usize) -> (r: Request)
    requires
        i < 2,
    ensures
        r@ == which_cmd(i as int),
{
    let n = program_name(i);
    Request::Program { program: owned("which"), args: strings1(n.as_str()) }
}

/// Starts the requirements check for the vaults' folder `root`.
pub fn check_requirements(ui: &Ui, root: &str, android: bool) -> (r: (Requirements, Step<bool>))
    ensures
        r.0.ui == *ui,
        r.0.root@ == root@,
        r.0.android == android,
        views(r.0.missing@) == Seq::<Seq<char>>::empty(),
        r.0.phase == ReqPhase::Which(0),
        req_step_view(r.1) == (StepView::<bool> { effects: seq![], next: NextView::Ask(which_cmd(0)) }),
{
    let missing: Vec<String> = Vec::new();
    assert(views(missing@) =~= Seq::<Seq<char>>::empty());
    (
        Requirements { ui: *ui, root: owned(root), android, missing, phase: ReqPhase::Which(0) },
        Step { effects: no_effects(), next: Next::Ask(which_request(0)) },
    )
}

impl Requirements {
    fn after_checks(&mut self) -> (r: Step<bool>)
        ensures
            final(self).ui == old(self).ui,
            final(self).root@ == old(self).root@,
            final(self).android == old(self).android,
            (final(self).phase, views(final(self).missing@), req_step_view(r)) == after_checks(
                old(self).ui,
                old(self).root@,
                old(self).android,
                views(old(self).missing@),
            ),
    {
        let t = self.ui.theme;
        if self.missing.len() > 0 {
            self.phase = ReqPhase::Done;
            let mut l = owned(t.red());
            l.append("✘ Missing: ");
            l.append(join_strings(&self.missing, ", ").as_str());
            l.append(t.reset());
            let p = Effect::Print(self.ui.out(l.as_str()));
            Step { effects: one_effect(p), next: Next::Finish(false) }
        } else if self.android && starts_with_str(self.root.as_str(), "/storage/emulated/0/") {
            self.phase = ReqPhase::RootDir;
            Step { effects: no_effects(), next: Next::Ask(Request::IsDir(self.root.clone())) }
        } else {
            self.phase = ReqPhase::Done;
            Step { effects: no_effects(), next: Next::Finish(true) }
        }
    }

    fn next_program(&mut self, j: usize) -> (r: Step<bool>)
        ensures
            final(self).ui == old(self).ui,
            final(self).root@ == old(self).root@,
            final(self).android == old(self).android,
            (final(self).phase, views(final(self).missing@), req_step_view(r)) == next_program(
                old(self).ui,
                old(self).root@,
                old(self).android,
                views(old(self).missing@),
                j as int,
            ),
    {
        if j < 2 {
            self.phase = ReqPhase::Which(j);
            Step { effects: no_effects(), next: Next::Ask(which_request(j)) }
        } else {
            self.after_checks()
        }
    }

    /// One step: `e` answers the previous request.
    pub fn resume(&mut self, e: Event) -> (r: Step<bool>)
        ensures
            final(self).ui == old(self).ui,
            final(self).root@ == old(self).root@,
            final(self).android == old(self).android,
            (final(self).phase, views(final(self).missing@), req_step_view(r)) == req_next(
                old(self).ui,
                old(self).root@,
                old(self).android,
                views(old(self).missing@),
                old(self).phase,
                e@,
            ),
    {
        let ghost ev = e@;
        match self.phase {
            ReqPhase::Which(i) => {
                let ok = match &e {
                    Event::Ran(RunOutcome::Exited { code, .. }) => match code {
                        Some(c) => *c == 0,
                        None => false,
                    },
                    _ => false,
                };
                if i >= 2 {
                    self.next_program(2)
                } else if ok {
                    self.next_program(i + 1)
                } else {
                    self.phase = ReqPhase::Version(i);
                    let n = program_name(i);
                    Step {
                        effects: no_effects(),
                        next: Next::Ask(Request::Program { program: n, args: strings1("--version") }),
                    }
                }
            },
            ReqPhase::Version(i) => {
                let failed = match &e {
                    Event::Ran(RunOutcome::SpawnFailed(_)) => true,
                    Event::Ran(_) => false,
                    _ => true,
                };
                if i < 2 && failed {
                    let ghost before = self.missing@;
                    self.missing.push(program_name(i));
                    assert(views(self.missing@) =~= views(before).push(required()[i as int]));
                    self.next_program(i + 1)
                } else {
                    if i < 2 {
                        self.next_program(i + 1)
                    } else {
                        self.next_program(2)
                    }
                }
            },
            ReqPhase::RootDir => {
                let b = match &e {
                    Event::Flag(b) => *b,
                    _ => false,
                };
                self.phase = ReqPhase::Done;
                if b {
                    Step { effects: no_effects(), next: Next::Finish(true) }
                } else {
                    let t = self.ui.theme;
                    let mut a = owned(t.red());
                    a.append("✘ Cannot access: ");
                    a.append(self.root.as_str());
                    a.append(t.reset());
                    let mut c = owned(t.yellow());
                    c.append("💡 Run: termux-setup-storage");
                    c.append(t.reset());
                    let mut fx = one_effect(Effect::Print(self.ui.out(a.as_str())));
                    let p2 = Effect::Print(self.ui.out(c.as_str()));
                    let ghost first = effect_views(fx@)[0];
                    add_effect(&mut fx, p2);
                    assert(effect_views(fx@) =~= seq![first, p2@]);
                    Step { effects: fx, next: Next::Finish(false) }
                }
            },
            ReqPhase::Done => Step { effects: no_effects(), next: Next::Finish(true) },
        }
    }
}

} // verus!
