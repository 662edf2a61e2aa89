//! The sync of one repository as a step machine. Each step takes the answer
//! to the previous request and gives the effects to carry out and the next
//! request, or the result of the sync.
use vstd::prelude::*;
use crate::clock::TimeKind;
use crate::config::{CONFLICT_DIR, HISTORY_DEPTH};
use crate::git::{
    CommandView, Git, GitCommand, OutcomeView, RunOutcome, add_all_cmd, add_file_cmd,
    cat_file_cmd, checkout_ours_cmd, commit_cmd, conflicted_cmd, current_branch_cmd,
    exclude_pattern, fetch_cmd, first_line, has_line, log_cmd, log_entries, ls_files_cmd,
    ls_remote_cmd, merge_abort_cmd, needs_safe_entry, output_or_empty, pull_cmd, push_cmd,
    push_upstream_cmd, remote_list_cmd, result_views, rm_file_cmd, run_result, safe_add_cmd,
    safe_list_cmd, set_upstream_cmd, show_stage_cmd, status_cmd, untrack_cmd, upstream_cmd,
};
use crate::machine::{
    Effect, EffectView, Event, EventView, Next, NextView, Request, RequestView, Step, StepView,
    add_effect, effect_views, no_effects, one_effect,
};
use crate::ops::{
    AheadBehind, IdentityCheck, IdentityView, OpNext, ahead_behind_next, counts_next_view,
    identity_next, identity_next_view, unit_result_view,
};
use crate::path::{file_name_of, joined, parent_of, with_ext};
use crate::sync::{SyncResult, final_status, plan_of, safe_name, sync_info_of};
use crate::text::{all_ws, dec, lines, tokens, trim, views, Sep};
use crate::ui::badge::SyncStatus;
use crate::ui::{Ui, result_lines, shown};

verus! {

/// How a sync runs: the console report's settings, whether the network is
/// down, whether this is a dry run, and whether the system is a unix (where
/// commands get a time limit).
#[derive(Clone, Copy)]
pub struct SyncContext {
    pub ui: Ui,
    pub offline: bool,
    pub dry_run: bool,
    pub unix: bool,
}

/// Where commits are being counted.
#[derive(Debug, Clone, Copy, PartialEq, Eq, Structural)]
pub enum Stage {
    AfterStatus,
    AfterCommit,
    AfterLink,
    AfterPull,
}

/// Why the identity is being checked.
#[derive(Debug, Clone, Copy, PartialEq, Eq, Structural)]
pub enum IdPurpose {
    BeforeAdd,
    BeforePull,
    InResolve,
}

/// What the machine waits for.
pub enum Phase {
    CheckRepo,
    SafeList,
    ReadExclude,
    LsConflictDir,
    History,
    Status,
    Fetch,
    Counting(Stage, AheadBehind),
    DryReport(SyncStatus),
    Identity(IdPurpose, IdentityCheck),
    AddAll,
    CommitTime,
    Commit,
    Recheck,
    HasUpstream,
    FirstRemote,
    CurrentBranch,
    LsRemote,
    PushUpstream,
    Pull,
    PullConflicts,
    ResolveList,
    BackupList,
    BackupTime,
    BackupOurs(usize),
    BackupTheirs(usize),
    Probe(usize),
    ResolveVerify,
    ResolveCommit,
    Push,
    Report,
    Done,
}

pub enum PhaseView {
    CheckRepo,
    SafeList,
    ReadExclude,
    LsConflictDir,
    History,
    Status,
    Fetch,
    Counting(Stage, AheadBehind),
    DryReport(SyncStatus),
    Identity(IdPurpose, IdentityView),
    AddAll,
    CommitTime,
    Commit,
    Recheck,
    HasUpstream,
    FirstRemote,
    CurrentBranch,
    LsRemote,
    PushUpstream,
    Pull,
    PullConflicts,
    ResolveList,
    BackupList,
    BackupTime,
    BackupOurs(usize),
    BackupTheirs(usize),
    Probe(usize),
    ResolveVerify,
    ResolveCommit,
    Push,
    Report,
    Done,
}

impl View for Phase {
    type V = PhaseView;

    open spec fn view(&self) -> PhaseView {
        match self {
            Phase::CheckRepo => PhaseView::CheckRepo,
            Phase::SafeList => PhaseView::SafeList,
            Phase::ReadExclude => PhaseView::ReadExclude,
            Phase::LsConflictDir => PhaseView::LsConflictDir,
            Phase::History => PhaseView::History,
            Phase::Status => PhaseView::Status,
            Phase::Fetch => PhaseView::Fetch,
            Phase::Counting(st, ab) => PhaseView::Counting(*st, *ab),
            Phase::DryReport(st) => PhaseView::DryReport(*st),
            Phase::Identity(p, id) => PhaseView::Identity(*p, id@),
            Phase::AddAll => PhaseView::AddAll,
            Phase::CommitTime => PhaseView::CommitTime,
            Phase::Commit => PhaseView::Commit,
            Phase::Recheck => PhaseView::Recheck,
            Phase::HasUpstream => PhaseView::HasUpstream,
            Phase::FirstRemote => PhaseView::FirstRemote,
            Phase::CurrentBranch => PhaseView::CurrentBranch,
            Phase::LsRemote => PhaseView::LsRemote,
            Phase::PushUpstream => PhaseView::PushUpstream,
            Phase::Pull => PhaseView::Pull,
            Phase::PullConflicts => PhaseView::PullConflicts,
            Phase::ResolveList => PhaseView::ResolveList,
            Phase::BackupList => PhaseView::BackupList,
            Phase::BackupTime => PhaseView::BackupTime,
            Phase::BackupOurs(i) => PhaseView::BackupOurs(*i),
            Phase::BackupTheirs(i) => PhaseView::BackupTheirs(*i),
            Phase::Probe(i) => PhaseView::Probe(*i),
            Phase::ResolveVerify => PhaseView::ResolveVerify,
            Phase::ResolveCommit => PhaseView::ResolveCommit,
            Phase::Push => PhaseView::Push,
            Phase::Report => PhaseView::Report,
            Phase::Done => PhaseView::Done,
        }
    }
}

/// The state of one repository's sync.
pub struct SyncMachine {
    pub git: Git,
    pub name: String,
    pub ctx: SyncContext,
    pub idx: usize,
    pub total: usize,
    pub info: String,
    pub local: String,
    pub remote_ok: bool,
    pub ahead: u32,
    pub behind: u32,
    pub did_commit: bool,
    pub did_pull: bool,
    pub did_push: bool,
    pub had_conflict: bool,
    pub status: SyncStatus,
    pub remote: Option<String>,
    pub branch: Option<String>,
    pub conflicts: Vec<String>,
    pub backups: Vec<String>,
    pub stamp: String,
    pub plan: String,
    pub pending: GitCommand,
    pub phase: Phase,
}

pub struct SyncView {
    pub repo: Seq<char>,
    pub name: Seq<char>,
    pub ctx: SyncContext,
    pub idx: usize,
    pub total: usize,
    pub info: Seq<char>,
    pub local: Seq<char>,
    pub remote_ok: bool,
    pub ahead: u32,
    pub behind: u32,
    pub did_commit: bool,
    pub did_pull: bool,
    pub did_push: bool,
    pub had_conflict: bool,
    pub status: SyncStatus,
    pub remote: Option<Seq<char>>,
    pub branch: Option<Seq<char>>,
    pub conflicts: Seq<Seq<char>>,
    pub backups: Seq<Seq<char>>,
    pub stamp: Seq<char>,
    pub plan: Seq<char>,
    pub pending: CommandView,
    pub phase: PhaseView,
}

pub open spec fn opt_text(o: Option<String>) -> Option<Seq<char>> {
    match o {
        Some(s) => Some(s@),
        None => None,
    }
}

impl View for SyncMachine {
    type V = SyncView;

    open spec fn view(&self) -> SyncView {
        SyncView {
            repo: self.git.repo@,
            name: self.name@,
            ctx: self.ctx,
            idx: self.idx,
            total: self.total,
            info: self.info@,
            local: self.local@,
            remote_ok: self.remote_ok,
            ahead: self.ahead,
            behind: self.behind,
            did_commit: self.did_commit,
            did_pull: self.did_pull,
            did_push: self.did_push,
            had_conflict: self.had_conflict,
            status: self.status,
            remote: opt_text(self.remote),
            branch: opt_text(self.branch),
            conflicts: views(self.conflicts@),
            backups: views(self.backups@),
            stamp: self.stamp@,
            plan: self.plan@,
            pending: self.pending@,
            phase: self.phase@,
        }
    }
}

pub type SyncOut = Result<SyncResult, String>;

pub type OutView = Result<SyncResult, Seq<char>>;

pub open spec fn out_view(r: SyncOut) -> OutView {
    match r {
        Ok(x) => Ok(x),
        Err(e) => Err(e@),
    }
}

pub open spec fn sync_step_view(s: Step<SyncOut>) -> StepView<OutView> {
    StepView {
        effects: effect_views(s.effects@),
        next: match s.next {
            Next::Ask(r) => NextView::Ask(r@),
            Next::Finish(x) => NextView::Finish(out_view(x)),
        },
    }
}

pub type Trans = (SyncView, StepView<OutView>);

// ------------------------------------------------------ reading the answers

/// The outcome an answer carries; any other answer counts as a command that
/// could not be started.
pub open spec fn as_outcome(e: EventView) -> OutcomeView {
    match e {
        EventView::Ran(o) => o,
        _ => OutcomeView::SpawnFailed(seq![]),
    }
}

pub open spec fn as_flag(e: EventView) -> bool {
    match e {
        EventView::Flag(b) => b,
        _ => false,
    }
}

/// The text an answer carries; empty when there is none.
pub open spec fn as_text(e: EventView) -> Seq<char> {
    match e {
        EventView::Text(Some(t)) => t,
        _ => seq![],
    }
}

pub open spec fn as_seconds(e: EventView) -> u64 {
    match e {
        EventView::Seconds(n) => n,
        _ => 0,
    }
}

/// The result of the pending command, read from the answer.
pub open spec fn answer(s: SyncView, e: EventView) -> Result<Seq<char>, Seq<char>> {
    run_result(s.pending, s.ctx.unix, as_outcome(e))
}

/// The conflicted files a `git diff --diff-filter=U -z` result lists.
pub open spec fn listed_conflicts(r: Result<Seq<char>, Seq<char>>) -> Seq<Seq<char>> {
    match r {
        Ok(out) => tokens(Sep::Char('\0'), out),
        Err(_) => seq![],
    }
}

// ------------------------------------------------------------ paths, texts

pub open spec fn git_dir(repo: Seq<char>) -> Seq<char> {
    joined(repo, ".git"@)
}

pub open spec fn exclude_file(repo: Seq<char>) -> Seq<char> {
    joined(repo, ".git/info/exclude"@)
}

pub open spec fn conflict_dir(repo: Seq<char>) -> Seq<char> {
    joined(repo, CONFLICT_DIR@)
}

/// The name shown for a repository: its folder's name, else its path.
pub open spec fn display_name(repo: Seq<char>) -> Seq<char> {
    match file_name_of(repo) {
        Some(n) => n,
        None => repo,
    }
}

pub open spec fn spinner_text(name: Seq<char>) -> Seq<char> {
    "Обработка "@ + name + "..."@
}

pub open spec fn commit_message(ts: Seq<char>) -> Seq<char> {
    "📱 Mobile sync "@ + ts
}

pub open spec fn resolve_message() -> Seq<char> {
    "🔧 Auto-resolve conflict (keep local)"@
}

pub open spec fn backup_path(repo: Seq<char>, f: Seq<char>, stamp: Seq<char>, suffix: Seq<char>) -> Seq<char> {
    with_ext(joined(conflict_dir(repo), safe_name(f) + "_"@ + stamp), suffix)
}

pub open spec fn text_or_empty(o: Option<Seq<char>>) -> Seq<char> {
    match o {
        Some(t) => t,
        None => seq![],
    }
}

pub open spec fn spinner_on(s: SyncView) -> bool {
    !s.ctx.ui.silent && s.ctx.ui.use_color
}

// ------------------------------------------------------- the transitions

pub open spec fn ask(s: SyncView, fx: Seq<EffectView>, phase: PhaseView, req: RequestView) -> Trans {
    (SyncView { phase, ..s }, StepView { effects: fx, next: NextView::Ask(req) })
}

pub open spec fn ask_git(s: SyncView, fx: Seq<EffectView>, phase: PhaseView, c: CommandView) -> Trans {
    (SyncView { phase, pending: c, ..s }, StepView { effects: fx, next: NextView::Ask(RequestView::Git(c)) })
}

pub open spec fn finish(s: SyncView, fx: Seq<EffectView>, r: OutView) -> Trans {
    (SyncView { phase: PhaseView::Done, ..s }, StepView { effects: fx, next: NextView::Finish(r) })
}

/// A failure after the spinner may have started: the spinner stops and the
/// sync ends with the message.
pub open spec fn fail(s: SyncView, msg: Seq<char>) -> Trans {
    finish(s, seq![EffectView::SpinnerStop], Err(msg))
}

pub open spec fn enter_counting(s: SyncView, fx: Seq<EffectView>, stage: Stage) -> Trans {
    ask_git(s, fx, PhaseView::Counting(stage, AheadBehind::AskUpstream), upstream_cmd())
}

pub open spec fn enter_identity(s: SyncView, fx: Seq<EffectView>, p: IdPurpose) -> Trans {
    ask_git(s, fx, PhaseView::Identity(p, IdentityView::AskName), crate::git::config_get_cmd("user.name"@))
}

pub open spec fn enter_report(s: SyncView, fx: Seq<EffectView>) -> Trans {
    let st = final_status(s.status, s.remote_ok, s.did_commit, s.did_pull, s.did_push, s.had_conflict);
    ask(SyncView { status: st, ..s }, fx.push(EffectView::SpinnerStop), PhaseView::Report, RequestView::Elapsed)
}

pub open spec fn enter_push(s: SyncView, fx: Seq<EffectView>) -> Trans {
    if s.ahead > 0 && s.remote_ok {
        ask_git(s, fx, PhaseView::Push, push_cmd())
    } else {
        enter_report(s, fx)
    }
}

pub open spec fn after_pull(s: SyncView, fx: Seq<EffectView>) -> Trans {
    if s.did_pull || s.had_conflict {
        enter_counting(s, fx, Stage::AfterPull)
    } else {
        enter_push(s, fx)
    }
}

pub open spec fn enter_pull(s: SyncView, fx: Seq<EffectView>) -> Trans {
    if s.behind > 0 && s.remote_ok {
        if s.ahead > 0 {
            enter_identity(s, fx, IdPurpose::BeforePull)
        } else {
            ask_git(s, fx, PhaseView::Pull, pull_cmd())
        }
    } else {
        after_pull(s, fx)
    }
}

pub open spec fn enter_link(s: SyncView) -> Trans {
    if s.remote_ok {
        ask_git(s, seq![], PhaseView::HasUpstream, upstream_cmd())
    } else {
        enter_pull(s, seq![])
    }
}

pub open spec fn enter_commit(s: SyncView) -> Trans {
    if !all_ws(s.local) {
        enter_identity(s, seq![], IdPurpose::BeforeAdd)
    } else {
        enter_counting(s, seq![], Stage::AfterCommit)
    }
}

/// Resolving a conflicted pull by keeping the local side begins by listing
/// the conflicted files.
pub open spec fn resolve_keep_local(s: SyncView, fx: Seq<EffectView>) -> Trans {
    ask_git(s, fx, PhaseView::ResolveList, conflicted_cmd())
}

/// Backing up the conflicted files begins by listing them again.
pub open spec fn backup_conflicts(s: SyncView) -> Trans {
    ask_git(s, seq![], PhaseView::BackupList, conflicted_cmd())
}

pub open spec fn resolved(s: SyncView) -> Trans {
    let s2 = SyncView { had_conflict: true, did_pull: true, status: SyncStatus::Conflict, ..s };
    let fx = seq![EffectView::Log("Conflict auto-resolved in "@ + s.name)] + (if spinner_on(s) {
        seq![EffectView::SpinnerStart(spinner_text(s.name))]
    } else {
        seq![]
    });
    after_pull(s2, fx)
}

pub open spec fn resolve_failed(s: SyncView, e: Seq<char>) -> Trans {
    finish(s, seq![EffectView::Git(merge_abort_cmd())], Err(s.name + ": "@ + e))
}

pub open spec fn enter_probe(s: SyncView, fx: Seq<EffectView>, i: int) -> Trans {
    if 0 <= i < s.conflicts.len() {
        ask_git(s, fx, PhaseView::Probe(i as usize), cat_file_cmd(":2:"@ + s.conflicts[i]))
    } else {
        ask_git(s, fx, PhaseView::ResolveVerify, conflicted_cmd())
    }
}

/// The backup written for one stage of a conflicted file, when git could
/// show that stage.
pub open spec fn backup_effects(s: SyncView, i: int, suffix: Seq<char>, e: EventView) -> Seq<EffectView> {
    match as_outcome(e) {
        OutcomeView::Exited { code, stdout, .. } => if code == Some(0i32) {
            let f = s.backups[i];
            let p = backup_path(s.repo, f, s.stamp, suffix);
            seq![
                EffectView::WriteFile { path: p, data: stdout },
                EffectView::Log("Conflict backup: "@ + f + " → "@ + p),
            ]
        } else {
            seq![]
        },
        OutcomeView::SpawnFailed(_) => seq![],
    }
}

pub open spec fn after_counts(s: SyncView, stage: Stage, a: u32, b: u32) -> Trans {
    match stage {
        Stage::AfterStatus => {
            let s2 = SyncView { ahead: a, behind: b, ..s };
            if s.ctx.dry_run {
                let (st, plan) = plan_of(s.local, s.remote_ok, a, b);
                ask(SyncView { plan, ..s2 }, seq![EffectView::SpinnerStop], PhaseView::DryReport(st), RequestView::Elapsed)
            } else {
                enter_commit(s2)
            }
        },
        Stage::AfterCommit => enter_link(SyncView { ahead: a, behind: b, ..s }),
        Stage::AfterLink => enter_pull(SyncView { ahead: a, behind: b, ..s }, seq![]),
        Stage::AfterPull => enter_push(SyncView { ahead: a, ..s }, seq![]),
    }
}

pub open spec fn after_identity(s: SyncView, p: IdPurpose, r: Result<(), Seq<char>>) -> Trans {
    match p {
        IdPurpose::BeforeAdd => match r {
            Err(e) => fail(s, s.name + ": "@ + e),
            Ok(_) => ask_git(s, seq![], PhaseView::AddAll, add_all_cmd()),
        },
        IdPurpose::BeforePull => match r {
            Err(e) => fail(s, s.name + ": "@ + e),
            Ok(_) => ask_git(s, seq![], PhaseView::Pull, pull_cmd()),
        },
        IdPurpose::InResolve => match r {
            Err(e) => resolve_failed(s, e),
            Ok(_) => ask_git(s, seq![], PhaseView::ResolveCommit, commit_cmd(resolve_message())),
        },
    }
}

/// The first step of a sync: is the repository a git repository?
pub open spec fn start_state(repo: Seq<char>, idx: usize, total: usize, ctx: SyncContext, s: SyncView) -> bool {
    &&& s.repo == repo
    &&& s.name == display_name(repo)
    &&& s.ctx == ctx
    &&& s.idx == idx
    &&& s.total == total
    &&& s.info == Seq::<char>::empty()
    &&& s.local == Seq::<char>::empty()
    &&& s.remote_ok == !ctx.offline
    &&& s.ahead == 0 && s.behind == 0
    &&& !s.did_commit && !s.did_pull && !s.did_push && !s.had_conflict
    &&& s.status == SyncStatus::UpToDate
    &&& s.remote is None && s.branch is None
    &&& s.conflicts == Seq::<Seq<char>>::empty()
    &&& s.backups == Seq::<Seq<char>>::empty()
    &&& s.stamp == Seq::<char>::empty()
    &&& s.plan == Seq::<char>::empty()
    &&& s.phase == PhaseView::CheckRepo
}

/// One step of the sync, given the answer to the pending request.
pub open spec fn sync_next(s: SyncView, e: EventView) -> Trans {
    let r = answer(s, e);
    match s.phase {
        PhaseView::CheckRepo => if as_flag(e) {
            ask_git(s, seq![], PhaseView::SafeList, safe_list_cmd())
        } else {
            finish(s, seq![EffectView::Log("ERROR: Not a git repo: "@ + s.repo)], Err(s.name + ": Отсутствует папка .git"@))
        },
        PhaseView::SafeList => {
            let fx1 = if !s.ctx.dry_run && needs_safe_entry(output_or_empty(r), s.repo) {
                seq![EffectView::Git(safe_add_cmd(s.repo))]
            } else {
                seq![]
            };
            let fx2 = match parent_of(exclude_file(s.repo)) {
                Some(p) => if s.ctx.dry_run {
                    seq![]
                } else {
                    seq![EffectView::CreateDirAll(p)]
                },
                None => seq![],
            };
            ask(s, fx1 + fx2, PhaseView::ReadExclude, RequestView::ReadFile(exclude_file(s.repo)))
        },
        PhaseView::ReadExclude => {
            let pat = exclude_pattern(CONFLICT_DIR@);
            let fx = if s.ctx.dry_run || has_line(as_text(e), pat) {
                seq![]
            } else {
                seq![EffectView::AppendLine { path: exclude_file(s.repo), line: pat }]
            };
            ask_git(s, fx, PhaseView::LsConflictDir, ls_files_cmd(CONFLICT_DIR@))
        },
        PhaseView::LsConflictDir => {
            let fx1 = if s.ctx.dry_run || all_ws(output_or_empty(r)) {
                seq![]
            } else {
                seq![EffectView::Git(crate::git::untrack_cmd(CONFLICT_DIR@))]
            };
            let fx2 = if spinner_on(s) {
                seq![EffectView::SpinnerStart(spinner_text(s.name))]
            } else {
                seq![]
            };
            ask_git(s, fx1 + fx2, PhaseView::History, log_cmd(HISTORY_DEPTH as nat))
        },
        PhaseView::History => {
            let info = sync_info_of(log_entries(lines(output_or_empty(r))));
            ask_git(SyncView { info, ..s }, seq![], PhaseView::Status, status_cmd())
        },
        PhaseView::Status => match r {
            Err(err) => {
                let msg = s.name + ": git status: "@ + err;
                finish(s, seq![EffectView::SpinnerStop, EffectView::Log("ERROR: "@ + msg)], Err(msg))
            },
            Ok(local) => {
                let s2 = SyncView { local, remote_ok: !s.ctx.offline, ..s };
                if !s.ctx.dry_run && !s.ctx.offline {
                    ask_git(s2, seq![], PhaseView::Fetch, fetch_cmd())
                } else {
                    enter_counting(s2, seq![], Stage::AfterStatus)
                }
            },
        },
        PhaseView::Fetch => match r {
            Err(err) => enter_counting(
                SyncView { remote_ok: false, ..s },
                seq![EffectView::Log("WARNING: Fetch failed in "@ + s.name + ": "@ + err)],
                Stage::AfterStatus,
            ),
            Ok(_) => enter_counting(s, seq![], Stage::AfterStatus),
        },
        PhaseView::Counting(stage, ab) => {
            let (ab2, n) = ahead_behind_next(ab, r);
            match n {
                crate::ops::OpNextView::Run(c) => ask_git(s, seq![], PhaseView::Counting(stage, ab2), c),
                crate::ops::OpNextView::Done(p) => after_counts(s, stage, p.0, p.1),
            }
        },
        PhaseView::DryReport(st) => {
            let secs = as_seconds(e);
            let lines = shown(
                s.ctx.ui,
                result_lines(s.ctx.ui, s.idx, s.total, s.name, SyncStatus::Skipped, s.info, secs, Some("Dry-run: "@ + s.plan)),
            );
            finish(s, seq![EffectView::Print(lines)], Ok(SyncResult { status: st, elapsed: secs }))
        },
        PhaseView::Identity(p, id) => {
            let (id2, n) = identity_next(id, r);
            match n {
                crate::ops::OpNextView::Run(c) => ask_git(s, seq![], PhaseView::Identity(p, id2), c),
                crate::ops::OpNextView::Done(res) => after_identity(s, p, res),
            }
        },
        PhaseView::AddAll => match r {
            Err(err) => fail(s, s.name + ": git add: "@ + err),
            Ok(_) => ask(s, seq![], PhaseView::CommitTime, RequestView::Time(TimeKind::Commit)),
        },
        PhaseView::CommitTime => ask_git(s, seq![], PhaseView::Commit, commit_cmd(commit_message(as_text(e)))),
        PhaseView::Commit => match r {
            Ok(_) => enter_counting(
                SyncView { did_commit: true, status: SyncStatus::Committed, ..s },
                seq![EffectView::Log("Committed local changes in "@ + s.name)],
                Stage::AfterCommit,
            ),
            Err(_) => ask_git(s, seq![], PhaseView::Recheck, status_cmd()),
        },
        PhaseView::Recheck => if !all_ws(output_or_empty(r)) {
            fail(s, s.name + ": git commit failed"@)
        } else {
            enter_counting(s, seq![], Stage::AfterCommit)
        },
        PhaseView::HasUpstream => match r {
            Ok(_) => enter_pull(s, seq![]),
            Err(_) => ask_git(s, seq![], PhaseView::FirstRemote, remote_list_cmd()),
        },
        PhaseView::FirstRemote => {
            let remote = match r {
                Ok(out) => first_line(out),
                Err(_) => None,
            };
            ask_git(SyncView { remote, ..s }, seq![], PhaseView::CurrentBranch, current_branch_cmd())
        },
        PhaseView::CurrentBranch => {
            let branch = match r {
                Ok(out) => Some(trim(out)),
                Err(_) => None,
            };
            let s2 = SyncView { branch, ..s };
            match (s.remote, branch) {
                (Some(rm), Some(br)) => ask_git(s2, seq![], PhaseView::LsRemote, ls_remote_cmd(rm, br)),
                _ => enter_pull(s2, seq![]),
            }
        },
        PhaseView::LsRemote => match r {
            Ok(_) => enter_counting(
                s,
                seq![EffectView::Git(set_upstream_cmd(text_or_empty(s.remote), text_or_empty(s.branch)))],
                Stage::AfterLink,
            ),
            Err(_) => ask_git(s, seq![], PhaseView::PushUpstream, push_upstream_cmd(text_or_empty(s.remote))),
        },
        PhaseView::PushUpstream => match r {
            Ok(_) => enter_counting(
                SyncView { did_push: true, status: SyncStatus::Pushed, ..s },
                seq![EffectView::Log("Pushed new branch to "@ + text_or_empty(s.remote) + " in "@ + s.name)],
                Stage::AfterLink,
            ),
            Err(err) => fail(s, s.name + ": Push ➔ "@ + err),
        },
        PhaseView::Pull => match r {
            Ok(_) => after_pull(
                SyncView { did_pull: true, status: SyncStatus::Pulled, ..s },
                seq![EffectView::Log("Pulled "@ + dec(s.behind as nat) + " commit(s) in "@ + s.name)],
            ),
            Err(_) => ask_git(s, seq![], PhaseView::PullConflicts, conflicted_cmd()),
        },
        PhaseView::PullConflicts => if listed_conflicts(r).len() == 0 {
            fail(s, s.name + ": Pull failed"@)
        } else {
            resolve_keep_local(s, seq![EffectView::SpinnerStop])
        },
        PhaseView::ResolveList => {
            let list = listed_conflicts(r);
            if list.len() == 0 {
                resolved(s)
            } else {
                backup_conflicts(SyncView { conflicts: list, ..s })
            }
        },
        PhaseView::BackupList => {
            let list = listed_conflicts(r);
            if list.len() == 0 {
                enter_probe(SyncView { backups: list, ..s }, seq![], 0)
            } else {
                ask(
                    SyncView { backups: list, ..s },
                    seq![EffectView::CreateDirAll(conflict_dir(s.repo))],
                    PhaseView::BackupTime,
                    RequestView::Time(TimeKind::Backup),
                )
            }
        },
        PhaseView::BackupTime => if s.backups.len() > 0 {
            ask_git(SyncView { stamp: as_text(e), ..s }, seq![], PhaseView::BackupOurs(0), show_stage_cmd(2, s.backups[0]))
        } else {
            enter_probe(SyncView { stamp: as_text(e), ..s }, seq![], 0)
        },
        PhaseView::BackupOurs(i) => if i < s.backups.len() {
            ask_git(s, backup_effects(s, i as int, "ours"@, e), PhaseView::BackupTheirs(i), show_stage_cmd(3, s.backups[i as int]))
        } else {
            enter_probe(s, seq![], 0)
        },
        PhaseView::BackupTheirs(i) => {
            let fx = if i < s.backups.len() {
                backup_effects(s, i as int, "theirs"@, e)
            } else {
                seq![]
            };
            if i + 1 < s.backups.len() {
                ask_git(s, fx, PhaseView::BackupOurs((i + 1) as usize), show_stage_cmd(2, s.backups[i + 1]))
            } else {
                enter_probe(s, fx.push(EffectView::CleanupOld(conflict_dir(s.repo))), 0)
            }
        },
        PhaseView::Probe(i) => {
            let fx = if i < s.conflicts.len() {
                let f = s.conflicts[i as int];
                match r {
                    Ok(_) => seq![EffectView::Git(checkout_ours_cmd(f)), EffectView::Git(add_file_cmd(f))],
                    Err(_) => seq![EffectView::Git(rm_file_cmd(f))],
                }
            } else {
                seq![]
            };
            enter_probe(s, fx, i + 1)
        },
        PhaseView::ResolveVerify => if listed_conflicts(r).len() > 0 {
            resolve_failed(s, "Не удалось разрешить конфликт до чистого индекса"@)
        } else {
            enter_identity(s, seq![], IdPurpose::InResolve)
        },
        PhaseView::ResolveCommit => match r {
            Ok(_) => resolved(s),
            Err(err) => resolve_failed(s, "Commit after conflict resolve: "@ + err),
        },
        PhaseView::Push => match r {
            Ok(_) => enter_report(
                SyncView {
                    did_push: true,
                    status: if s.had_conflict {
                        s.status
                    } else {
                        SyncStatus::Pushed
                    },
                    ..s
                },
                seq![EffectView::Log("Pushed "@ + dec(s.ahead as nat) + " commit(s) in "@ + s.name)],
            ),
            Err(err) => fail(s, s.name + ": Push ➔ "@ + err),
        },
        PhaseView::Report => {
            let secs = as_seconds(e);
            let lines = shown(s.ctx.ui, result_lines(s.ctx.ui, s.idx, s.total, s.name, s.status, s.info, secs, None));
            finish(s, seq![EffectView::Print(lines)], Ok(SyncResult { status: s.status, elapsed: secs }))
        },
        PhaseView::Done => finish(s, seq![], Err(s.name)),
    }
}

// ----------------------------------------------------------- the machine

fn outcome_of(e: Event) -> (o: RunOutcome)
    ensures
        o@ == as_outcome(e@),
{
    match e {
        Event::Ran(o) => o,
        _ => RunOutcome::SpawnFailed(String::new()),
    }
}

fn flag_of(e: &Event) -> (b: bool)
    ensures
        b == as_flag(e@),
{
    match e {
        Event::Flag(b) => *b,
        _ => false,
    }
}

fn text_of(e: Event) -> (t: String)
    ensures
        t@ == as_text(e@),
{
    match e {
        Event::Text(Some(t)) => t,
        _ => String::new(),
    }
}

fn seconds_of(e: &Event) -> (n: u64)
    ensures
        n == as_seconds(e@),
{
    match e {
        Event::Seconds(n) => *n,
        _ => 0,
    }
}

fn listed(r: &Result<String, String>) -> (v: Vec<String>)
    ensures
        views(v@) == listed_conflicts(result_views(*r)),
{
    Git::conflicted_files_result(r)
}

fn is_blank_output(r: &Result<String, String>) -> (b: bool)
    ensures
        b == all_ws(output_or_empty(result_views(*r))),
{
    match r {
        Ok(o) => crate::text::is_blank(o.as_str()),
        Err(_) => {
            assert(all_ws(Seq::<char>::empty()));
            true
        },
    }
}

/// Starts the sync of the repository at `repo`, the `idx`-th of `total`:
/// the first step asks whether it holds a `.git` folder.
pub fn start(repo: String, idx: usize, total: usize, ctx: SyncContext) -> (r: (SyncMachine, Step<SyncOut>))
    ensures
        start_state(repo@, idx, total, ctx, r.0@),
        sync_step_view(r.1) == (StepView::<OutView> {
            effects: seq![],
            next: NextView::Ask(RequestView::IsDir(git_dir(repo@))),
        }),
{
    let name = match crate::path::path_file_name(repo.as_str()) {
        Some(n) => n,
        None => repo.clone(),
    };
    let git = Git::new(repo);
    let first = git.is_repo();
    let pending = git.status_porcelain();
    let conflicts: Vec<String> = Vec::new();
    let backups: Vec<String> = Vec::new();
    assert(views(conflicts@) =~= Seq::<Seq<char>>::empty());
    assert(views(backups@) =~= Seq::<Seq<char>>::empty());
    let m = SyncMachine {
        git,
        name,
        ctx,
        idx,
        total,
        info: String::new(),
        local: String::new(),
        remote_ok: !ctx.offline,
        ahead: 0,
        behind: 0,
        did_commit: false,
        did_pull: false,
        did_push: false,
        had_conflict: false,
        status: SyncStatus::UpToDate,
        remote: None,
        branch: None,
        conflicts,
        backups,
        stamp: String::new(),
        plan: String::new(),
        pending,
        phase: Phase::CheckRepo,
    };
    (m, Step { effects: no_effects(), next: Next::Ask(first) })
}

impl SyncMachine {
    fn ask(&mut self, fx: Vec<Effect>, phase: Phase, req: Request) -> (r: Step<SyncOut>)
        ensures
            (final(self)@, sync_step_view(r)) == ask(old(self)@, effect_views(fx@), phase@, req@),
    {
        self.phase = phase;
        Step { effects: fx, next: Next::Ask(req) }
    }

    fn ask_git(&mut self, fx: Vec<Effect>, phase: Phase, c: GitCommand) -> (r: Step<SyncOut>)
        ensures
            (final(self)@, sync_step_view(r)) == ask_git(old(self)@, effect_views(fx@), phase@, c@),
    {
        self.pending = c.duplicate();
        self.phase = phase;
        Step { effects: fx, next: Next::Ask(Request::Git(c)) }
    }

    fn finish(&mut self, fx: Vec<Effect>, out: SyncOut) -> (r: Step<SyncOut>)
        ensures
            (final(self)@, sync_step_view(r)) == finish(old(self)@, effect_views(fx@), out_view(out)),
    {
        self.phase = Phase::Done;
        Step { effects: fx, next: Next::Finish(out) }
    }

    fn fail(&mut self, msg: String) -> (r: Step<SyncOut>)
        ensures
            (final(self)@, sync_step_view(r)) == fail(old(self)@, msg@),
    {
        self.finish(one_effect(Effect::SpinnerStop), Err(msg))
    }

    fn named(&self, text: &str) -> (m: String)
        ensures
            m@ == self.name@ + text@,
    {
        crate::text::cat(self.name.as_str(), text)
    }

    fn enter_counting(&mut self, fx: Vec<Effect>, stage: Stage) -> (r: Step<SyncOut>)
        ensures
            (final(self)@, sync_step_view(r)) == enter_counting(old(self)@, effect_views(fx@), stage),
    {
        let (ab, c) = AheadBehind::start(&self.git);
        self.ask_git(fx, Phase::Counting(stage, ab), c)
    }

    fn enter_identity(&mut self, fx: Vec<Effect>, p: IdPurpose) -> (r: Step<SyncOut>)
        ensures
            (final(self)@, sync_step_view(r)) == enter_identity(old(self)@, effect_views(fx@), p),
    {
        let (id, c) = IdentityCheck::start(&self.git);
        self.ask_git(fx, Phase::Identity(p, id), c)
    }

    fn enter_report(&mut self, fx: Vec<Effect>) -> (r: Step<SyncOut>)
        ensures
            (final(self)@, sync_step_view(r)) == enter_report(old(self)@, effect_views(fx@)),
    {
        self.status = crate::sync::settle_status(
            self.status,
            self.remote_ok,
            self.did_commit,
            self.did_pull,
            self.did_push,
            self.had_conflict,
        );
        let mut fx = fx;
        add_effect(&mut fx, Effect::SpinnerStop);
        self.ask(fx, Phase::Report, Request::Elapsed)
    }

    fn enter_push(&mut self, fx: Vec<Effect>) -> (r: Step<SyncOut>)
        ensures
            (final(self)@, sync_step_view(r)) == enter_push(old(self)@, effect_views(fx@)),
    {
        if self.ahead > 0 && self.remote_ok {
            let c = self.git.push();
            self.ask_git(fx, Phase::Push, c)
        } else {
            self.enter_report(fx)
        }
    }

    fn after_pull(&mut self, fx: Vec<Effect>) -> (r: Step<SyncOut>)
        ensures
            (final(self)@, sync_step_view(r)) == after_pull(old(self)@, effect_views(fx@)),
    {
        if self.did_pull || self.had_conflict {
            self.enter_counting(fx, Stage::AfterPull)
        } else {
            self.enter_push(fx)
        }
    }

    fn enter_pull(&mut self, fx: Vec<Effect>) -> (r: Step<SyncOut>)
        ensures
            (final(self)@, sync_step_view(r)) == enter_pull(old(self)@, effect_views(fx@)),
    {
        if self.behind > 0 && self.remote_ok {
            if self.ahead > 0 {
                self.enter_identity(fx, IdPurpose::BeforePull)
            } else {
                let c = self.git.pull();
                self.ask_git(fx, Phase::Pull, c)
            }
        } else {
            self.after_pull(fx)
        }
    }

    fn enter_link(&mut self) -> (r: Step<SyncOut>)
        ensures
            (final(self)@, sync_step_view(r)) == enter_link(old(self)@),
    {
        if self.remote_ok {
            let c = self.git.has_upstream();
            self.ask_git(no_effects(), Phase::HasUpstream, c)
        } else {
            self.enter_pull(no_effects())
        }
    }

    fn enter_commit(&mut self) -> (r: Step<SyncOut>)
        ensures
            (final(self)@, sync_step_view(r)) == enter_commit(old(self)@),
    {
        if !crate::text::is_blank(self.local.as_str()) {
            self.enter_identity(no_effects(), IdPurpose::BeforeAdd)
        } else {
            self.enter_counting(no_effects(), Stage::AfterCommit)
        }
    }

    /// Starts resolving a conflicted pull by keeping the local side: the
    /// conflicted files are listed.
    pub fn resolve_keep_local(&mut self, fx: Vec<Effect>) -> (r: Step<SyncOut>)
        ensures
            (final(self)@, sync_step_view(r)) == resolve_keep_local(old(self)@, effect_views(fx@)),
    {
        let c = self.git.conflicted_files();
        self.ask_git(fx, Phase::ResolveList, c)
    }

    /// Starts backing up the conflicted files: they are listed again.
    pub fn backup_conflicts(&mut self) -> (r: Step<SyncOut>)
        ensures
            (final(self)@, sync_step_view(r)) == backup_conflicts(old(self)@),
    {
        let c = self.git.conflicted_files();
        self.ask_git(no_effects(), Phase::BackupList, c)
    }

    fn resolved(&mut self) -> (r: Step<SyncOut>)
        ensures
            (final(self)@, sync_step_view(r)) == resolved(old(self)@),
    {
        let mut fx = one_effect(Effect::Log(crate::text::cat("Conflict auto-resolved in ", self.name.as_str())));
        if !self.ctx.ui.silent && self.ctx.ui.use_color {
            let t = crate::text::cat3("Обработка ", self.name.as_str(), "...");
            add_effect(&mut fx, Effect::SpinnerStart(t));
        }
        let ghost pre = old(self)@;
        assert(effect_views(fx@) =~= seq![EffectView::Log("Conflict auto-resolved in "@ + pre.name)] + (if spinner_on(pre) {
            seq![EffectView::SpinnerStart(spinner_text(pre.name))]
        } else {
            seq![]
        }));
        self.had_conflict = true;
        self.did_pull = true;
        self.status = SyncStatus::Conflict;
        self.after_pull(fx)
    }

    fn resolve_failed(&mut self, e: String) -> (r: Step<SyncOut>)
        ensures
            (final(self)@, sync_step_view(r)) == resolve_failed(old(self)@, e@),
    {
        let mut msg = self.named(": ");
        msg.append(e.as_str());
        let c = self.git.merge_abort();
        self.finish(one_effect(Effect::Git(c)), Err(msg))
    }

    fn enter_probe(&mut self, fx: Vec<Effect>, i: usize) -> (r: Step<SyncOut>)
        ensures
            (final(self)@, sync_step_view(r)) == enter_probe(old(self)@, effect_views(fx@), i as int),
    {
        if i < self.conflicts.len() {
            let spec = crate::text::cat(":2:", self.conflicts[i].as_str());
            assert(views(self.conflicts@)[i as int] == self.conflicts@[i as int]@);
            let c = self.git.cat_file_exists(spec.as_str());
            self.ask_git(fx, Phase::Probe(i), c)
        } else {
            let c = self.git.conflicted_files();
            self.ask_git(fx, Phase::ResolveVerify, c)
        }
    }

    fn conflict_folder(&self) -> (p: String)
        ensures
            p@ == conflict_dir(self.git.repo@),
    {
        crate::path::path_join(self.git.repo.as_str(), CONFLICT_DIR)
    }

    fn backup_effects(&self, i: usize, suffix: &str, e: &RunOutcome) -> (fx: Vec<Effect>)
        requires
            i < self.backups@.len(),
            crate::path::no_separator(suffix@),
        ensures
            effect_views(fx@) == backup_effects(self@, i as int, suffix@, EventView::Ran(e@)),
    {
        match Git::show_stage_result(e) {
            Some(data) => {
                let f = &self.backups[i];
                assert(views(self.backups@)[i as int] == f@);
                let safe = crate::sync::backup_safe_name(f.as_str());
                let mut base_name = safe;
                base_name.append("_");
                base_name.append(self.stamp.as_str());
                let dir = self.conflict_folder();
                let base = crate::path::path_join(dir.as_str(), base_name.as_str());
                let p = crate::path::path_with_extension(base.as_str(), suffix);
                let mut log = crate::text::cat("Conflict backup: ", f.as_str());
                log.append(" → ");
                log.append(p.as_str());
                let mut fx = one_effect(Effect::WriteFile { path: p, data });
                add_effect(&mut fx, Effect::Log(log));
                fx
            },
            None => no_effects(),
        }
    }

    fn after_counts(&mut self, stage: Stage, a: u32, b: u32) -> (r: Step<SyncOut>)
        ensures
            (final(self)@, sync_step_view(r)) == after_counts(old(self)@, stage, a, b),
    {
        match stage {
            Stage::AfterStatus => {
                self.ahead = a;
                self.behind = b;
                if self.ctx.dry_run {
                    let (st, plan) = crate::sync::dry_run_plan(self.local.as_str(), self.remote_ok, a, b);
                    self.plan = plan;
                    self.ask(one_effect(Effect::SpinnerStop), Phase::DryReport(st), Request::Elapsed)
                } else {
                    self.enter_commit()
                }
            },
            Stage::AfterCommit => {
                self.ahead = a;
                self.behind = b;
                self.enter_link()
            },
            Stage::AfterLink => {
                self.ahead = a;
                self.behind = b;
                self.enter_pull(no_effects())
            },
            Stage::AfterPull => {
                self.ahead = a;
                self.enter_push(no_effects())
            },
        }
    }

    fn after_identity(&mut self, p: IdPurpose, res: Result<(), String>) -> (r: Step<SyncOut>)
        ensures
            (final(self)@, sync_step_view(r)) == after_identity(old(self)@, p, unit_result_view(res)),
    {
        match p {
            IdPurpose::BeforeAdd => match res {
                Err(e) => {
                    let mut m = self.named(": ");
                    m.append(e.as_str());
                    self.fail(m)
                },
                Ok(()) => {
                    let c = self.git.add_all();
                    self.ask_git(no_effects(), Phase::AddAll, c)
                },
            },
            IdPurpose::BeforePull => match res {
                Err(e) => {
                    let mut m = self.named(": ");
                    m.append(e.as_str());
                    self.fail(m)
                },
                Ok(()) => {
                    let c = self.git.pull();
                    self.ask_git(no_effects(), Phase::Pull, c)
                },
            },
            IdPurpose::InResolve => match res {
                Err(e) => self.resolve_failed(e),
                Ok(()) => {
                    let c = self.git.commit("🔧 Auto-resolve conflict (keep local)");
                    self.ask_git(no_effects(), Phase::ResolveCommit, c)
                },
            },
        }
    }

    /// One step of the sync: `e` answers the request of the previous step.
    pub fn resume(&mut self, e: Event) -> (r: Step<SyncOut>)
        ensures
            (final(self)@, sync_step_view(r)) == sync_next(old(self)@, e@),
    {
        let ghost s0 = self@;
        let mut phase = Phase::Done;
        std::mem::swap(&mut phase, &mut self.phase);
        match phase {
            Phase::CheckRepo => self.on_check_repo(e, Ghost(s0)),
            Phase::SafeList => self.on_safe_list(e, Ghost(s0)),
            Phase::ReadExclude => self.on_read_exclude(e, Ghost(s0)),
            Phase::LsConflictDir => self.on_ls_conflict_dir(e, Ghost(s0)),
            Phase::History => self.on_history(e, Ghost(s0)),
            Phase::Status => self.on_status(e, Ghost(s0)),
            Phase::Fetch => self.on_fetch(e, Ghost(s0)),
            Phase::Counting(stage, ab) => self.on_counting(e, stage, ab, Ghost(s0)),
            Phase::DryReport(st) => self.on_dry_report(e, st, Ghost(s0)),
            Phase::Identity(p, id) => self.on_identity(e, p, id, Ghost(s0)),
            Phase::AddAll => self.on_add_all(e, Ghost(s0)),
            Phase::CommitTime => self.on_commit_time(e, Ghost(s0)),
            Phase::Commit => self.on_commit(e, Ghost(s0)),
            Phase::Recheck => self.on_recheck(e, Ghost(s0)),
            Phase::HasUpstream => self.on_has_upstream(e, Ghost(s0)),
            Phase::FirstRemote => self.on_first_remote(e, Ghost(s0)),
            Phase::CurrentBranch => self.on_current_branch(e, Ghost(s0)),
            Phase::LsRemote => self.on_ls_remote(e, Ghost(s0)),
            Phase::PushUpstream => self.on_push_upstream(e, Ghost(s0)),
            Phase::Pull => self.on_pull(e, Ghost(s0)),
            Phase::PullConflicts => self.on_pull_conflicts(e, Ghost(s0)),
            Phase::ResolveList => self.on_resolve_list(e, Ghost(s0)),
            Phase::BackupList => self.on_backup_list(e, Ghost(s0)),
            Phase::BackupTime => self.on_backup_time(e, Ghost(s0)),
            Phase::BackupOurs(i) => self.on_backup_ours(e, i, Ghost(s0)),
            Phase::BackupTheirs(i) => self.on_backup_theirs(e, i, Ghost(s0)),
            Phase::Probe(i) => self.on_probe(e, i, Ghost(s0)),
            Phase::ResolveVerify => self.on_resolve_verify(e, Ghost(s0)),
            Phase::ResolveCommit => self.on_resolve_commit(e, Ghost(s0)),
            Phase::Push => self.on_push(e, Ghost(s0)),
            Phase::Report => self.on_report(e, Ghost(s0)),
            Phase::Done => self.on_done(e, Ghost(s0)),
        }
    }

    fn on_check_repo(&mut self, e: Event, Ghost(orig): Ghost<SyncView>) -> (r: Step<SyncOut>)
        requires
            orig.phase == PhaseView::CheckRepo,
            old(self)@ == (SyncView { phase: PhaseView::Done, ..orig }),
        ensures
            (final(self)@, sync_step_view(r)) == sync_next(orig, e@),
    {
        if flag_of(&e) {
            let c = self.git.ensure_safe_directory();
            self.ask_git(no_effects(), Phase::SafeList, c)
        } else {
            let log = crate::text::cat("ERROR: Not a git repo: ", self.git.repo.as_str());
            let msg = self.named(": Отсутствует папка .git");
            self.finish(one_effect(Effect::Log(log)), Err(msg))
        }
    }

    fn on_safe_list(&mut self, e: Event, Ghost(orig): Ghost<SyncView>) -> (r: Step<SyncOut>)
        requires
            orig.phase == PhaseView::SafeList,
            old(self)@ == (SyncView { phase: PhaseView::Done, ..orig }),
        ensures
            (final(self)@, sync_step_view(r)) == sync_next(orig, e@),
    {
        let o = outcome_of(e);
        let r = Git::run_result(&self.pending, self.ctx.unix, &o);
        let mut fx = no_effects();
        if !self.ctx.dry_run {
            match self.git.ensure_safe_directory_result(&r) {
                Some(c) => add_effect(&mut fx, Effect::Git(c)),
                None => {},
            }
        }
        let ghost fx1 = effect_views(fx@);
        let ex = crate::path::path_join(self.git.repo.as_str(), ".git/info/exclude");
        if !self.ctx.dry_run {
            match crate::path::path_parent(ex.as_str()) {
                Some(p) => add_effect(&mut fx, Effect::CreateDirAll(p)),
                None => {},
            }
        }
        proof {
            let fx2 = match parent_of(exclude_file(orig.repo)) {
                Some(p) => if orig.ctx.dry_run {
                    seq![]
                } else {
                    seq![EffectView::CreateDirAll(p)]
                },
                None => seq![],
            };
            assert(effect_views(fx@) =~= fx1 + fx2);
        }
        self.ask(fx, Phase::ReadExclude, Request::ReadFile(ex))
    }

    fn on_read_exclude(&mut self, e: Event, Ghost(orig): Ghost<SyncView>) -> (r: Step<SyncOut>)
        requires
            orig.phase == PhaseView::ReadExclude,
            old(self)@ == (SyncView { phase: PhaseView::Done, ..orig }),
        ensures
            (final(self)@, sync_step_view(r)) == sync_next(orig, e@),
    {
        let content = text_of(e);
        let mut fx = no_effects();
        if !self.ctx.dry_run {
            match Git::ensure_conflict_dir_ignored(content.as_str(), CONFLICT_DIR) {
                Some(line) => {
                    let ex = crate::path::path_join(self.git.repo.as_str(), ".git/info/exclude");
                    add_effect(&mut fx, Effect::AppendLine { path: ex, line });
                },
                None => {},
            }
        }
        let c = self.git.untrack_conflict_dir(CONFLICT_DIR);
        self.ask_git(fx, Phase::LsConflictDir, c)
    }

    fn on_ls_conflict_dir(&mut self, e: Event, Ghost(orig): Ghost<SyncView>) -> (r: Step<SyncOut>)
        requires
            orig.phase == PhaseView::LsConflictDir,
            old(self)@ == (SyncView { phase: PhaseView::Done, ..orig }),
        ensures
            (final(self)@, sync_step_view(r)) == sync_next(orig, e@),
    {
        let o = outcome_of(e);
        let r = Git::run_result(&self.pending, self.ctx.unix, &o);
        let mut fx = no_effects();
        if !self.ctx.dry_run {
            match Git::untrack_conflict_dir_result(CONFLICT_DIR, &r) {
                Some(c) => add_effect(&mut fx, Effect::Git(c)),
                None => {},
            }
        }
        let ghost fx1 = effect_views(fx@);
        if !self.ctx.ui.silent && self.ctx.ui.use_color {
            let t = crate::text::cat3("Обработка ", self.name.as_str(), "...");
            add_effect(&mut fx, Effect::SpinnerStart(t));
        }
        proof {
            let fx2 = if spinner_on(orig) {
                seq![EffectView::SpinnerStart(spinner_text(orig.name))]
            } else {
                seq![]
            };
            assert(effect_views(fx@) =~= fx1 + fx2);
        }
        let c = self.git.log_recent(HISTORY_DEPTH);
        self.ask_git(fx, Phase::History, c)
    }

    fn on_history(&mut self, e: Event, Ghost(orig): Ghost<SyncView>) -> (r: Step<SyncOut>)
        requires
            orig.phase == PhaseView::History,
            old(self)@ == (SyncView { phase: PhaseView::Done, ..orig }),
        ensures
            (final(self)@, sync_step_view(r)) == sync_next(orig, e@),
    {
        let o = outcome_of(e);
        let r = Git::run_result(&self.pending, self.ctx.unix, &o);
        let entries = Git::log_recent_result(&r);
        self.info = crate::sync::build_sync_info(&entries);
        let c = self.git.status_porcelain();
        self.ask_git(no_effects(), Phase::Status, c)
    }

    fn on_status(&mut self, e: Event, Ghost(orig): Ghost<SyncView>) -> (r: Step<SyncOut>)
        requires
            orig.phase == PhaseView::Status,
            old(self)@ == (SyncView { phase: PhaseView::Done, ..orig }),
        ensures
            (final(self)@, sync_step_view(r)) == sync_next(orig, e@),
    {
        let o = outcome_of(e);
        let r = Git::run_result(&self.pending, self.ctx.unix, &o);
        match r {
            Err(err) => {
                let mut msg = self.named(": git status: ");
                msg.append(err.as_str());
                let log = crate::text::cat("ERROR: ", msg.as_str());
                let mut fx = one_effect(Effect::SpinnerStop);
                add_effect(&mut fx, Effect::Log(log));
                assert(effect_views(fx@) =~= seq![EffectView::SpinnerStop, EffectView::Log(log@)]);
                self.finish(fx, Err(msg))
            },
            Ok(local) => {
                self.local = local;
                self.remote_ok = !self.ctx.offline;
                if !self.ctx.dry_run && !self.ctx.offline {
                    let c = self.git.fetch();
                    self.ask_git(no_effects(), Phase::Fetch, c)
                } else {
                    self.enter_counting(no_effects(), Stage::AfterStatus)
                }
            },
        }
    }

    fn on_fetch(&mut self, e: Event, Ghost(orig): Ghost<SyncView>) -> (r: Step<SyncOut>)
        requires
            orig.phase == PhaseView::Fetch,
            old(self)@ == (SyncView { phase: PhaseView::Done, ..orig }),
        ensures
            (final(self)@, sync_step_view(r)) == sync_next(orig, e@),
    {
        let o = outcome_of(e);
        let r = Git::run_result(&self.pending, self.ctx.unix, &o);
        match r {
            Err(err) => {
                self.remote_ok = false;
                let mut log = crate::text::cat("WARNING: Fetch failed in ", self.name.as_str());
                log.append(": ");
                log.append(err.as_str());
                self.enter_counting(one_effect(Effect::Log(log)), Stage::AfterStatus)
            },
            Ok(_) => self.enter_counting(no_effects(), Stage::AfterStatus),
        }
    }

    fn on_counting(&mut self, e: Event, stage: Stage, ab: AheadBehind, Ghost(orig): Ghost<SyncView>) -> (r: Step<SyncOut>)
        requires
            orig.phase == PhaseView::Counting(stage, ab),
            old(self)@ == (SyncView { phase: PhaseView::Done, ..orig }),
        ensures
            (final(self)@, sync_step_view(r)) == sync_next(orig, e@),
    {
        let o = outcome_of(e);
        let r = Git::run_result(&self.pending, self.ctx.unix, &o);
        let mut ab = ab;
        match ab.resume(&self.git, r) {
            OpNext::Run(c) => self.ask_git(no_effects(), Phase::Counting(stage, ab), c),
            OpNext::Done((a, b)) => self.after_counts(stage, a, b),
        }
    }

    fn on_dry_report(&mut self, e: Event, st: SyncStatus, Ghost(orig): Ghost<SyncView>) -> (r: Step<SyncOut>)
        requires
            orig.phase == PhaseView::DryReport(st),
            old(self)@ == (SyncView { phase: PhaseView::Done, ..orig }),
        ensures
            (final(self)@, sync_step_view(r)) == sync_next(orig, e@),
    {
        let secs = seconds_of(&e);
        let note = crate::text::cat("Dry-run: ", self.plan.as_str());
        let lines = self.ctx.ui.repo_result(
            self.idx,
            self.total,
            self.name.as_str(),
            SyncStatus::Skipped,
            self.info.as_str(),
            secs,
            Some(note.as_str()),
        );
        self.finish(one_effect(Effect::Print(lines)), Ok(SyncResult { status: st, elapsed: secs }))
    }

    fn on_identity(&mut self, e: Event, p: IdPurpose, id: IdentityCheck, Ghost(orig): Ghost<SyncView>) -> (r: Step<SyncOut>)
        requires
            orig.phase == PhaseView::Identity(p, id@),
            old(self)@ == (SyncView { phase: PhaseView::Done, ..orig }),
        ensures
            (final(self)@, sync_step_view(r)) == sync_next(orig, e@),
    {
        let o = outcome_of(e);
        let r = Git::run_result(&self.pending, self.ctx.unix, &o);
        let mut id = id;
        match id.resume(&self.git, r) {
            OpNext::Run(c) => self.ask_git(no_effects(), Phase::Identity(p, id), c),
            OpNext::Done(res) => self.after_identity(p, res),
        }
    }

    fn on_add_all(&mut self, e: Event, Ghost(orig): Ghost<SyncView>) -> (r: Step<SyncOut>)
        requires
            orig.phase == PhaseView::AddAll,
            old(self)@ == (SyncView { phase: PhaseView::Done, ..orig }),
        ensures
            (final(self)@, sync_step_view(r)) == sync_next(orig, e@),
    {
        let o = outcome_of(e);
        let r = Git::run_result(&self.pending, self.ctx.unix, &o);
        match r {
            Err(err) => {
                let mut m = self.named(": git add: ");
                m.append(err.as_str());
                self.fail(m)
            },
            Ok(_) => self.ask(no_effects(), Phase::CommitTime, Request::Time(TimeKind::Commit)),
        }
    }

    fn on_commit_time(&mut self, e: Event, Ghost(orig): Ghost<SyncView>) -> (r: Step<SyncOut>)
        requires
            orig.phase == PhaseView::CommitTime,
            old(self)@ == (SyncView { phase: PhaseView::Done, ..orig }),
        ensures
            (final(self)@, sync_step_view(r)) == sync_next(orig, e@),
    {
        let ts = text_of(e);
        let msg = crate::text::cat("📱 Mobile sync ", ts.as_str());
        let c = self.git.commit(msg.as_str());
        self.ask_git(no_effects(), Phase::Commit, c)
    }

    fn on_commit(&mut self, e: Event, Ghost(orig): Ghost<SyncView>) -> (r: Step<SyncOut>)
        requires
            orig.phase == PhaseView::Commit,
            old(self)@ == (SyncView { phase: PhaseView::Done, ..orig }),
        ensures
            (final(self)@, sync_step_view(r)) == sync_next(orig, e@),
    {
        let o = outcome_of(e);
        let r = Git::run_result(&self.pending, self.ctx.unix, &o);
        match r {
            Ok(_) => {
                self.did_commit = true;
                self.status = SyncStatus::Committed;
                let log = crate::text::cat("Committed local changes in ", self.name.as_str());
                self.enter_counting(one_effect(Effect::Log(log)), Stage::AfterCommit)
            },
            Err(_) => {
                let c = self.git.status_porcelain();
                self.ask_git(no_effects(), Phase::Recheck, c)
            },
        }
    }

    fn on_recheck(&mut self, e: Event, Ghost(orig): Ghost<SyncView>) -> (r: Step<SyncOut>)
        requires
            orig.phase == PhaseView::Recheck,
            old(self)@ == (SyncView { phase: PhaseView::Done, ..orig }),
        ensures
            (final(self)@, sync_step_view(r)) == sync_next(orig, e@),
    {
        let o = outcome_of(e);
        let r = Git::run_result(&self.pending, self.ctx.unix, &o);
        if !is_blank_output(&r) {
            let m = self.named(": git commit failed");
            self.fail(m)
        } else {
            self.enter_counting(no_effects(), Stage::AfterCommit)
        }
    }

    fn on_has_upstream(&mut self, e: Event, Ghost(orig): Ghost<SyncView>) -> (r: Step<SyncOut>)
        requires
            orig.phase == PhaseView::HasUpstream,
            old(self)@ == (SyncView { phase: PhaseView::Done, ..orig }),
        ensures
            (final(self)@, sync_step_view(r)) == sync_next(orig, e@),
    {
        let o = outcome_of(e);
        let r = Git::run_result(&self.pending, self.ctx.unix, &o);
        match r {
            Ok(_) => self.enter_pull(no_effects()),
            Err(_) => {
                let c = self.git.first_remote();
                self.ask_git(no_effects(), Phase::FirstRemote, c)
            },
        }
    }

    fn on_first_remote(&mut self, e: Event, Ghost(orig): Ghost<SyncView>) -> (r: Step<SyncOut>)
        requires
            orig.phase == PhaseView::FirstRemote,
            old(self)@ == (SyncView { phase: PhaseView::Done, ..orig }),
        ensures
            (final(self)@, sync_step_view(r)) == sync_next(orig, e@),
    {
        let o = outcome_of(e);
        let r = Git::run_result(&self.pending, self.ctx.unix, &o);
        self.remote = Git::first_remote_result(&r);
        let c = self.git.current_branch();
        self.ask_git(no_effects(), Phase::CurrentBranch, c)
    }

    fn on_current_branch(&mut self, e: Event, Ghost(orig): Ghost<SyncView>) -> (r: Step<SyncOut>)
        requires
            orig.phase == PhaseView::CurrentBranch,
            old(self)@ == (SyncView { phase: PhaseView::Done, ..orig }),
        ensures
            (final(self)@, sync_step_view(r)) == sync_next(orig, e@),
    {
        let o = outcome_of(e);
        let r = Git::run_result(&self.pending, self.ctx.unix, &o);
        let branch = Git::current_branch_result(&r);
        let c = match (&self.remote, &branch) {
            (Some(rm), Some(br)) => Some(self.git.remote_branch_exists(rm.as_str(), br.as_str())),
            _ => None,
        };
        self.branch = branch;
        match c {
            Some(c) => self.ask_git(no_effects(), Phase::LsRemote, c),
            None => self.enter_pull(no_effects()),
        }
    }

    fn on_ls_remote(&mut self, e: Event, Ghost(orig): Ghost<SyncView>) -> (r: Step<SyncOut>)
        requires
            orig.phase == PhaseView::LsRemote,
            old(self)@ == (SyncView { phase: PhaseView::Done, ..orig }),
        ensures
            (final(self)@, sync_step_view(r)) == sync_next(orig, e@),
    {
        let o = outcome_of(e);
        let r = Git::run_result(&self.pending, self.ctx.unix, &o);
        let rm = match &self.remote {
            Some(x) => x.clone(),
            None => String::new(),
        };
        let br = match &self.branch {
            Some(x) => x.clone(),
            None => String::new(),
        };
        assert(rm@ == text_or_empty(orig.remote));
        assert(br@ == text_or_empty(orig.branch));
        match r {
            Ok(_) => {
                let c = self.git.set_upstream_to(rm.as_str(), br.as_str());
                self.enter_counting(one_effect(Effect::Git(c)), Stage::AfterLink)
            },
            Err(_) => {
                let c = self.git.push_set_upstream(rm.as_str());
                self.ask_git(no_effects(), Phase::PushUpstream, c)
            },
        }
    }

    fn on_push_upstream(&mut self, e: Event, Ghost(orig): Ghost<SyncView>) -> (r: Step<SyncOut>)
        requires
            orig.phase == PhaseView::PushUpstream,
            old(self)@ == (SyncView { phase: PhaseView::Done, ..orig }),
        ensures
            (final(self)@, sync_step_view(r)) == sync_next(orig, e@),
    {
        let o = outcome_of(e);
        let r = Git::run_result(&self.pending, self.ctx.unix, &o);
        match r {
            Ok(_) => {
                let rm = match &self.remote {
                    Some(x) => x.clone(),
                    None => String::new(),
                };
                assert(rm@ == text_or_empty(orig.remote));
                let mut log = crate::text::cat("Pushed new branch to ", rm.as_str());
                log.append(" in ");
                log.append(self.name.as_str());
                self.did_push = true;
                self.status = SyncStatus::Pushed;
                self.enter_counting(one_effect(Effect::Log(log)), Stage::AfterLink)
            },
            Err(err) => {
                let mut m = self.named(": Push ➔ ");
                m.append(err.as_str());
                self.fail(m)
            },
        }
    }

    fn on_pull(&mut self, e: Event, Ghost(orig): Ghost<SyncView>) -> (r: Step<SyncOut>)
        requires
            orig.phase == PhaseView::Pull,
            old(self)@ == (SyncView { phase: PhaseView::Done, ..orig }),
        ensures
            (final(self)@, sync_step_view(r)) == sync_next(orig, e@),
    {
        let o = outcome_of(e);
        let r = Git::run_result(&self.pending, self.ctx.unix, &o);
        match r {
            Ok(_) => {
                let mut log = crate::text::cat("Pulled ", crate::text::dec_string(self.behind as u64).as_str());
                log.append(" commit(s) in ");
                log.append(self.name.as_str());
                self.did_pull = true;
                self.status = SyncStatus::Pulled;
                self.after_pull(one_effect(Effect::Log(log)))
            },
            Err(_) => {
                let c = self.git.conflicted_files();
                self.ask_git(no_effects(), Phase::PullConflicts, c)
            },
        }
    }

    fn on_pull_conflicts(&mut self, e: Event, Ghost(orig): Ghost<SyncView>) -> (r: Step<SyncOut>)
        requires
            orig.phase == PhaseView::PullConflicts,
            old(self)@ == (SyncView { phase: PhaseView::Done, ..orig }),
        ensures
            (final(self)@, sync_step_view(r)) == sync_next(orig, e@),
    {
        let o = outcome_of(e);
        let r = Git::run_result(&self.pending, self.ctx.unix, &o);
        let list = listed(&r);
        if list.len() == 0 {
            let m = self.named(": Pull failed");
            self.fail(m)
        } else {
            self.resolve_keep_local(one_effect(Effect::SpinnerStop))
        }
    }

    fn on_resolve_list(&mut self, e: Event, Ghost(orig): Ghost<SyncView>) -> (r: Step<SyncOut>)
        requires
            orig.phase == PhaseView::ResolveList,
            old(self)@ == (SyncView { phase: PhaseView::Done, ..orig }),
        ensures
            (final(self)@, sync_step_view(r)) == sync_next(orig, e@),
    {
        let o = outcome_of(e);
        let r = Git::run_result(&self.pending, self.ctx.unix, &o);
        let list = listed(&r);
        if list.len() == 0 {
            self.resolved()
        } else {
            self.conflicts = list;
            self.backup_conflicts()
        }
    }

    fn on_backup_list(&mut self, e: Event, Ghost(orig): Ghost<SyncView>) -> (r: Step<SyncOut>)
        requires
            orig.phase == PhaseView::BackupList,
            old(self)@ == (SyncView { phase: PhaseView::Done, ..orig }),
        ensures
            (final(self)@, sync_step_view(r)) == sync_next(orig, e@),
    {
        let o = outcome_of(e);
        let r = Git::run_result(&self.pending, self.ctx.unix, &o);
        let list = listed(&r);
        if list.len() == 0 {
            self.backups = list;
            self.enter_probe(no_effects(), 0)
        } else {
            self.backups = list;
            let dir = self.conflict_folder();
            self.ask(one_effect(Effect::CreateDirAll(dir)), Phase::BackupTime, Request::Time(TimeKind::Backup))
        }
    }

    fn on_backup_time(&mut self, e: Event, Ghost(orig): Ghost<SyncView>) -> (r: Step<SyncOut>)
        requires
            orig.phase == PhaseView::BackupTime,
            old(self)@ == (SyncView { phase: PhaseView::Done, ..orig }),
        ensures
            (final(self)@, sync_step_view(r)) == sync_next(orig, e@),
    {
        self.stamp = text_of(e);
        if self.backups.len() > 0 {
            assert(views(self.backups@)[0] == self.backups@[0]@);
            let c = self.git.show_stage(2, self.backups[0].as_str());
            self.ask_git(no_effects(), Phase::BackupOurs(0), c)
        } else {
            self.enter_probe(no_effects(), 0)
        }
    }

    fn on_backup_ours(&mut self, e: Event, i: usize, Ghost(orig): Ghost<SyncView>) -> (r: Step<SyncOut>)
        requires
            orig.phase == PhaseView::BackupOurs(i),
            old(self)@ == (SyncView { phase: PhaseView::Done, ..orig }),
        ensures
            (final(self)@, sync_step_view(r)) == sync_next(orig, e@),
    {
        if i < self.backups.len() {
            let o = outcome_of(e);
            proof {
                reveal_strlit("ours");
            }
            let fx = self.backup_effects(i, "ours", &o);
            assert(views(self.backups@)[i as int] == self.backups@[i as int]@);
            let c = self.git.show_stage(3, self.backups[i].as_str());
            self.ask_git(fx, Phase::BackupTheirs(i), c)
        } else {
            self.enter_probe(no_effects(), 0)
        }
    }

    fn on_backup_theirs(&mut self, e: Event, i: usize, Ghost(orig): Ghost<SyncView>) -> (r: Step<SyncOut>)
        requires
            orig.phase == PhaseView::BackupTheirs(i),
            old(self)@ == (SyncView { phase: PhaseView::Done, ..orig }),
        ensures
            (final(self)@, sync_step_view(r)) == sync_next(orig, e@),
    {
        let o = outcome_of(e);
        let fx = if i < self.backups.len() {
            proof {
                reveal_strlit("theirs");
            }
            self.backup_effects(i, "theirs", &o)
        } else {
            no_effects()
        };
        if i < self.backups.len() && i + 1 < self.backups.len() {
            assert(views(self.backups@)[i + 1] == self.backups@[i + 1]@);
            let c = self.git.show_stage(2, self.backups[i + 1].as_str());
            self.ask_git(fx, Phase::BackupOurs(i + 1), c)
        } else {
            let mut fx = fx;
            let dir = self.conflict_folder();
            add_effect(&mut fx, Effect::CleanupOld(dir));
            self.enter_probe(fx, 0)
        }
    }

    fn on_probe(&mut self, e: Event, i: usize, Ghost(orig): Ghost<SyncView>) -> (r: Step<SyncOut>)
        requires
            orig.phase == PhaseView::Probe(i),
            old(self)@ == (SyncView { phase: PhaseView::Done, ..orig }),
        ensures
            (final(self)@, sync_step_view(r)) == sync_next(orig, e@),
    {
        let o = outcome_of(e);
        let r = Git::run_result(&self.pending, self.ctx.unix, &o);
        let mut fx = no_effects();
        if i < self.conflicts.len() {
            let f = &self.conflicts[i];
            assert(views(self.conflicts@)[i as int] == f@);
            match r {
                Ok(_) => {
                    let c1 = self.git.checkout_ours(f.as_str());
                    let c2 = self.git.add_file(f.as_str());
                    add_effect(&mut fx, Effect::Git(c1));
                    add_effect(&mut fx, Effect::Git(c2));
                    assert(effect_views(fx@) =~= seq![EffectView::Git(c1@), EffectView::Git(c2@)]);
                },
                Err(_) => {
                    let c = self.git.rm_file(f.as_str());
                    add_effect(&mut fx, Effect::Git(c));
                    assert(effect_views(fx@) =~= seq![EffectView::Git(c@)]);
                },
            }
            self.enter_probe(fx, i + 1)
        } else {
            self.enter_probe(fx, self.conflicts.len())
        }
    }

    fn on_resolve_verify(&mut self, e: Event, Ghost(orig): Ghost<SyncView>) -> (r: Step<SyncOut>)
        requires
            orig.phase == PhaseView::ResolveVerify,
            old(self)@ == (SyncView { phase: PhaseView::Done, ..orig }),
        ensures
            (final(self)@, sync_step_view(r)) == sync_next(orig, e@),
    {
        let o = outcome_of(e);
        let r = Git::run_result(&self.pending, self.ctx.unix, &o);
        let list = listed(&r);
        if list.len() > 0 {
            self.resolve_failed(crate::text::owned("Не удалось разрешить конфликт до чистого индекса"))
        } else {
            self.enter_identity(no_effects(), IdPurpose::InResolve)
        }
    }

    fn on_resolve_commit(&mut self, e: Event, Ghost(orig): Ghost<SyncView>) -> (r: Step<SyncOut>)
        requires
            orig.phase == PhaseView::ResolveCommit,
            old(self)@ == (SyncView { phase: PhaseView::Done, ..orig }),
        ensures
            (final(self)@, sync_step_view(r)) == sync_next(orig, e@),
    {
        let o = outcome_of(e);
        let r = Git::run_result(&self.pending, self.ctx.unix, &o);
        match r {
            Ok(_) => self.resolved(),
            Err(err) => {
                let m = crate::text::cat("Commit after conflict resolve: ", err.as_str());
                self.resolve_failed(m)
            },
        }
    }

    fn on_push(&mut self, e: Event, Ghost(orig): Ghost<SyncView>) -> (r: Step<SyncOut>)
        requires
            orig.phase == PhaseView::Push,
            old(self)@ == (SyncView { phase: PhaseView::Done, ..orig }),
        ensures
            (final(self)@, sync_step_view(r)) == sync_next(orig, e@),
    {
        let o = outcome_of(e);
        let r = Git::run_result(&self.pending, self.ctx.unix, &o);
        match r {
            Ok(_) => {
                let mut log = crate::text::cat("Pushed ", crate::text::dec_string(self.ahead as u64).as_str());
                log.append(" commit(s) in ");
                log.append(self.name.as_str());
                self.did_push = true;
                if !self.had_conflict {
                    self.status = SyncStatus::Pushed;
                }
                self.enter_report(one_effect(Effect::Log(log)))
            },
            Err(err) => {
                let mut m = self.named(": Push ➔ ");
                m.append(err.as_str());
                self.fail(m)
            },
        }
    }

    fn on_report(&mut self, e: Event, Ghost(orig): Ghost<SyncView>) -> (r: Step<SyncOut>)
        requires
            orig.phase == PhaseView::Report,
            old(self)@ == (SyncView { phase: PhaseView::Done, ..orig }),
        ensures
            (final(self)@, sync_step_view(r)) == sync_next(orig, e@),
    {
        let secs = seconds_of(&e);
        let lines = self.ctx.ui.repo_result(
            self.idx,
            self.total,
            self.name.as_str(),
            self.status,
            self.info.as_str(),
            secs,
            None,
        );
        let st = self.status;
        self.finish(one_effect(Effect::Print(lines)), Ok(SyncResult { status: st, elapsed: secs }))
    }

    fn on_done(&mut self, e: Event, Ghost(orig): Ghost<SyncView>) -> (r: Step<SyncOut>)
        requires
            orig.phase == PhaseView::Done,
            old(self)@ == (SyncView { phase: PhaseView::Done, ..orig }),
        ensures
            (final(self)@, sync_step_view(r)) == sync_next(orig, e@),
    {
        let n = self.name.clone();
        self.finish(no_effects(), Err(n))
    }
}

// -------------------------------------------------------------------- laws

/// The steps that reach the remote.
pub open spec fn is_network_phase(p: PhaseView) -> bool {
    ||| p is Fetch
    ||| p is LsRemote
    ||| p is PushUpstream
    ||| p is Pull
    ||| p is Push
}

/// While offline: the remote counts as unreachable, and the sync is in none
/// of the steps that lead to the remote.
pub open spec fn offline_safe(s: SyncView) -> bool {
    s.ctx.offline ==> {
        &&& !s.remote_ok
        &&& !is_network_phase(s.phase)
        &&& !(s.phase is HasUpstream)
        &&& !(s.phase is FirstRemote)
        &&& !(s.phase is CurrentBranch)
        &&& !(s.phase matches PhaseView::Identity(IdPurpose::BeforePull, _))
    }
}

/// The steps a dry run may be in: those before the first change.
pub open spec fn dry_run_safe(s: SyncView) -> bool {
    s.ctx.dry_run ==> {
        ||| s.phase is CheckRepo
        ||| s.phase is SafeList
        ||| s.phase is ReadExclude
        ||| s.phase is LsConflictDir
        ||| s.phase is History
        ||| s.phase is Status
        ||| s.phase matches PhaseView::Counting(Stage::AfterStatus, _)
        ||| s.phase is DryReport
        ||| s.phase is Done
    }
}

/// A sync starts offline-safe and dry-run-safe.
pub proof fn lemma_start_safe(repo: Seq<char>, idx: usize, total: usize, ctx: SyncContext, s: SyncView)
    requires
        start_state(repo, idx, total, ctx, s),
    ensures
        offline_safe(s),
        dry_run_safe(s),
{
}

/// With the network down, a sync never fetches, pulls or pushes: every step
/// from an offline-safe state leads to an offline-safe state, so no step of
/// the sync waits on the remote.
#[verifier::rlimit(50)]
pub proof fn lemma_offline_never_remote(s: SyncView, e: EventView)
    requires
        offline_safe(s),
    ensures
        sync_next(s, e).0.ctx == s.ctx,
        offline_safe(sync_next(s, e).0),
        s.ctx.offline ==> !is_network_phase(sync_next(s, e).0.phase),
{
    match s.phase {
        PhaseView::CheckRepo => {},
        PhaseView::SafeList => {},
        PhaseView::ReadExclude => {},
        PhaseView::LsConflictDir => {},
        PhaseView::History => {},
        PhaseView::Status => {},
        PhaseView::Fetch => {},
        PhaseView::Counting(_, _) => {},
        PhaseView::DryReport(_) => {},
        PhaseView::Identity(_, _) => {},
        PhaseView::AddAll => {},
        PhaseView::CommitTime => {},
        PhaseView::Commit => {},
        PhaseView::Recheck => {},
        PhaseView::HasUpstream => {},
        PhaseView::FirstRemote => {},
        PhaseView::CurrentBranch => {},
        PhaseView::LsRemote => {},
        PhaseView::PushUpstream => {},
        PhaseView::Pull => {},
        PhaseView::PullConflicts => {},
        PhaseView::ResolveList => {},
        PhaseView::BackupList => {},
        PhaseView::BackupTime => {},
        PhaseView::BackupOurs(_) => {},
        PhaseView::BackupTheirs(_) => {},
        PhaseView::Probe(_) => {},
        PhaseView::ResolveVerify => {},
        PhaseView::ResolveCommit => {},
        PhaseView::Push => {},
        PhaseView::Report => {},
        PhaseView::Done => {},
    }
}

/// Effects that leave the repository, its files and git's configuration
/// alone: no git command, no folder made or removed, no file written.
pub open spec fn changes_nothing(fx: Seq<EffectView>) -> bool {
    forall|i: int|
        0 <= i < fx.len() ==> !(#[trigger] fx[i] is Git || fx[i] is CreateDirAll || fx[i] is AppendLine
            || fx[i] is WriteFile || fx[i] is CleanupOld || fx[i] is WritePid || fx[i] is RemoveDirAll)
}

/// The git commands that only read: the `safe.directory` list, the tracked
/// files of the conflict folder, the history, the status, the upstream and
/// the commit counts.
pub open spec fn read_only_cmd(c: CommandView) -> bool {
    ||| c == safe_list_cmd()
    ||| c == ls_files_cmd(CONFLICT_DIR@)
    ||| c == log_cmd(HISTORY_DEPTH as nat)
    ||| c == status_cmd()
    ||| c == upstream_cmd()
    ||| c == crate::git::counts_cmd()
}

/// A next step that only reads: a read-only git command, a folder test, a
/// file read, the elapsed time, or the end.
pub open spec fn asks_only_reads(n: NextView<OutView>) -> bool {
    match n {
        NextView::Ask(RequestView::Git(c)) => read_only_cmd(c),
        NextView::Ask(r) => r is IsDir || r is ReadFile || r is Elapsed,
        NextView::Finish(_) => true,
    }
}

/// A dry run changes nothing: every step from a dry-run-safe state leads to
/// a dry-run-safe state, carries out no effect that writes (no git command,
/// no folder made or removed, no file written), and asks only for reads.
/// A dry run starts dry-run-safe (`lemma_start_safe`), so no step of it
/// changes the repository.
#[verifier::rlimit(100)]
pub proof fn lemma_dry_run_never_changes(s: SyncView, e: EventView)
    requires
        dry_run_safe(s),
    ensures
        sync_next(s, e).0.ctx == s.ctx,
        dry_run_safe(sync_next(s, e).0),
        s.ctx.dry_run ==> !(sync_next(s, e).0.phase is AddAll) && !(sync_next(s, e).0.phase is Commit)
            && !(sync_next(s, e).0.phase is Fetch) && !(sync_next(s, e).0.phase is Pull) && !(sync_next(s, e).0.phase is Push)
            && !(sync_next(s, e).0.phase is PushUpstream),
        s.ctx.dry_run ==> changes_nothing(sync_next(s, e).1.effects),
        s.ctx.dry_run ==> asks_only_reads(sync_next(s, e).1.next),
{
}

pub broadcast proof fn lemma_starts_with_self(a: Seq<char>)
    ensures
        #[trigger] crate::text::starts_with(a, a),
{
    assert(a.subrange(0, a.len() as int) =~= a);
}

pub broadcast proof fn lemma_starts_with_cat(a: Seq<char>, b: Seq<char>, c: Seq<char>)
    requires
        crate::text::starts_with(a, c),
    ensures
        #[trigger] crate::text::starts_with(a + b, c),
{
    assert((a + b).subrange(0, c.len() as int) =~= a.subrange(0, c.len() as int));
}

/// Every failure names the repository: a sync that ends in an error gives a
/// message that begins with the repository's name, and no step changes the
/// name.
#[verifier::rlimit(50)]
pub proof fn lemma_failures_named(s: SyncView, e: EventView)
    ensures
        sync_next(s, e).0.name == s.name,
        sync_next(s, e).1.next matches NextView::Finish(Err(m)) ==> crate::text::starts_with(m, s.name),
{
    broadcast use lemma_starts_with_self, lemma_starts_with_cat;

    match s.phase {
        PhaseView::CheckRepo => {},
        PhaseView::SafeList => {},
        PhaseView::ReadExclude => {},
        PhaseView::LsConflictDir => {},
        PhaseView::History => {},
        PhaseView::Status => {},
        PhaseView::Fetch => {},
        PhaseView::Counting(_, _) => {},
        PhaseView::DryReport(_) => {},
        PhaseView::Identity(_, _) => {},
        PhaseView::AddAll => {},
        PhaseView::CommitTime => {},
        PhaseView::Commit => {},
        PhaseView::Recheck => {},
        PhaseView::HasUpstream => {},
        PhaseView::FirstRemote => {},
        PhaseView::CurrentBranch => {},
        PhaseView::LsRemote => {},
        PhaseView::PushUpstream => {},
        PhaseView::Pull => {},
        PhaseView::PullConflicts => {},
        PhaseView::ResolveList => {},
        PhaseView::BackupList => {},
        PhaseView::BackupTime => {},
        PhaseView::BackupOurs(_) => {},
        PhaseView::BackupTheirs(_) => {},
        PhaseView::Probe(_) => {},
        PhaseView::ResolveVerify => {},
        PhaseView::ResolveCommit => {},
        PhaseView::Push => {},
        PhaseView::Report => {},
        PhaseView::Done => {},
    }
}


/// How far the sync is from its end: the step's place in the sync, later
/// steps lower.
pub open spec fn phase_rank(p: PhaseView) -> nat {
    match p {
        PhaseView::CheckRepo => 40,
        PhaseView::SafeList => 39,
        PhaseView::ReadExclude => 38,
        PhaseView::LsConflictDir => 37,
        PhaseView::History => 36,
        PhaseView::Status => 35,
        PhaseView::Fetch => 34,
        PhaseView::Counting(st, _) => match st {
            Stage::AfterStatus => 33,
            Stage::AfterCommit => 26,
            Stage::AfterLink => 20,
            Stage::AfterPull => 8,
        },
        PhaseView::DryReport(_) => 32,
        PhaseView::Identity(p, _) => match p {
            IdPurpose::BeforeAdd => 31,
            IdPurpose::BeforePull => 19,
            IdPurpose::InResolve => 10,
        },
        PhaseView::AddAll => 30,
        PhaseView::CommitTime => 29,
        PhaseView::Commit => 28,
        PhaseView::Recheck => 27,
        PhaseView::HasUpstream => 25,
        PhaseView::FirstRemote => 24,
        PhaseView::CurrentBranch => 23,
        PhaseView::LsRemote => 22,
        PhaseView::PushUpstream => 21,
        PhaseView::Pull => 18,
        PhaseView::PullConflicts => 17,
        PhaseView::ResolveList => 16,
        PhaseView::BackupList => 15,
        PhaseView::BackupTime => 14,
        PhaseView::BackupOurs(_) => 13,
        PhaseView::BackupTheirs(_) => 13,
        PhaseView::Probe(_) => 12,
        PhaseView::ResolveVerify => 11,
        PhaseView::ResolveCommit => 9,
        PhaseView::Push => 7,
        PhaseView::Report => 6,
        PhaseView::Done => 0,
    }
}

pub open spec fn identity_rank(id: IdentityView) -> nat {
    match id {
        IdentityView::AskName => 6,
        IdentityView::AskEmail { .. } => 5,
        IdentityView::AskGlobalName { .. } => 4,
        IdentityView::AskGlobalEmail { .. } => 3,
        IdentityView::SetName { .. } => 2,
        IdentityView::SetEmail => 1,
        IdentityView::Finished => 0,
    }
}

/// Within one step of the sync: the commands of the step left to run, and
/// the conflicted files left to back up or resolve.
pub open spec fn step_rank(s: SyncView) -> nat {
    match s.phase {
        PhaseView::Counting(_, ab) => if ab == AheadBehind::AskUpstream {
            1
        } else {
            0
        },
        PhaseView::Identity(_, id) => identity_rank(id),
        PhaseView::BackupOurs(i) => if i < s.backups.len() {
            (2 * (s.backups.len() - i) + 1) as nat
        } else {
            0
        },
        PhaseView::BackupTheirs(i) => if i < s.backups.len() {
            (2 * (s.backups.len() - i)) as nat
        } else {
            0
        },
        PhaseView::Probe(i) => if i < s.conflicts.len() {
            (s.conflicts.len() - i) as nat
        } else {
            0
        },
        _ => 0,
    }
}

/// `a` is strictly nearer the end than `b`, in the lexicographic order of
/// the two ranks (a well-founded order).
pub open spec fn nearer_end(a: SyncView, b: SyncView) -> bool {
    ||| phase_rank(a.phase) < phase_rank(b.phase)
    ||| (phase_rank(a.phase) == phase_rank(b.phase) && step_rank(a) < step_rank(b))
}

/// A sync always ends: whatever the answer, a step that has not ended
/// brings the sync strictly nearer its end in a well-founded order; a step
/// that gives the result leaves the sync ended; and an ended sync stays
/// ended. (The lists of conflicted files have the length of a `Vec`.)
#[verifier::rlimit(100)]
pub proof fn lemma_sync_ends(s: SyncView, e: EventView)
    requires
        s.conflicts.len() <= usize::MAX,
        s.backups.len() <= usize::MAX,
    ensures
        !(s.phase is Done) ==> nearer_end(sync_next(s, e).0, s),
        sync_next(s, e).1.next is Finish ==> sync_next(s, e).0.phase is Done,
        s.phase is Done ==> (sync_next(s, e).0.phase is Done && sync_next(s, e).1.next is Finish),
{
    match s.phase {
        PhaseView::CheckRepo => {},
        PhaseView::SafeList => {},
        PhaseView::ReadExclude => {},
        PhaseView::LsConflictDir => {},
        PhaseView::History => {},
        PhaseView::Status => {},
        PhaseView::Fetch => {},
        PhaseView::Counting(_, _) => {},
        PhaseView::DryReport(_) => {},
        PhaseView::Identity(_, _) => {},
        PhaseView::AddAll => {},
        PhaseView::CommitTime => {},
        PhaseView::Commit => {},
        PhaseView::Recheck => {},
        PhaseView::HasUpstream => {},
        PhaseView::FirstRemote => {},
        PhaseView::CurrentBranch => {},
        PhaseView::LsRemote => {},
        PhaseView::PushUpstream => {},
        PhaseView::Pull => {},
        PhaseView::PullConflicts => {},
        PhaseView::ResolveList => {},
        PhaseView::BackupList => {},
        PhaseView::BackupTime => {},
        PhaseView::BackupOurs(_) => {},
        PhaseView::BackupTheirs(_) => {},
        PhaseView::Probe(_) => {},
        PhaseView::ResolveVerify => {},
        PhaseView::ResolveCommit => {},
        PhaseView::Push => {},
        PhaseView::Report => {},
        PhaseView::Done => {},
    }
}

/// The steps of resolving a conflicted pull.
pub open spec fn in_resolution(p: PhaseView) -> bool {
    ||| p is ResolveList
    ||| p is BackupList
    ||| p is BackupTime
    ||| p is BackupOurs
    ||| p is BackupTheirs
    ||| p is Probe
    ||| p is ResolveVerify
    ||| p is ResolveCommit
    ||| p matches PhaseView::Identity(IdPurpose::InResolve, _)
}

/// A failed conflict resolution undoes the merge: a step of the resolution
/// that ends the sync with an error runs `git merge --abort`.
#[verifier::rlimit(50)]
pub proof fn lemma_failed_resolution_aborts(s: SyncView, e: EventView)
    requires
        in_resolution(s.phase),
    ensures
        sync_next(s, e).1.next matches NextView::Finish(Err(_)) ==> sync_next(s, e).1.effects.contains(
            EffectView::Git(merge_abort_cmd()),
        ),
{
    let t = sync_next(s, e);
    if t.1.next matches NextView::Finish(Err(_)) {
        assert(t.1.effects[t.1.effects.len() - 1] == EffectView::Git(merge_abort_cmd()));
    }
}

/// Whether the spinner runs after `fx` is carried out, starting from `on`.
pub open spec fn spinner_after(on: bool, fx: Seq<EffectView>) -> bool
    decreases fx.len(),
{
    if fx.len() == 0 {
        on
    } else {
        match fx.last() {
            EffectView::SpinnerStart(_) => true,
            EffectView::SpinnerStop => false,
            _ => spinner_after(on, fx.drop_last()),
        }
    }
}

/// The steps during which the spinner runs (when the report shows one):
/// from reading the history to the push, except while a conflict is being
/// resolved.
pub open spec fn spins(s: SyncView) -> bool {
    spinner_on(s) && match s.phase {
        PhaseView::History => true,
        PhaseView::Status => true,
        PhaseView::Fetch => true,
        PhaseView::Counting(_, _) => true,
        PhaseView::Identity(p, _) => p != IdPurpose::InResolve,
        PhaseView::AddAll => true,
        PhaseView::CommitTime => true,
        PhaseView::Commit => true,
        PhaseView::Recheck => true,
        PhaseView::HasUpstream => true,
        PhaseView::FirstRemote => true,
        PhaseView::CurrentBranch => true,
        PhaseView::LsRemote => true,
        PhaseView::PushUpstream => true,
        PhaseView::Pull => true,
        PhaseView::PullConflicts => true,
        PhaseView::Push => true,
        _ => false,
    }
}

/// The spinner never outlives the sync: carrying out a step's effects
/// leaves the spinner running exactly in the steps of `spins`, so it is
/// stopped whenever the sync ends, and it is stopped while a conflict is
/// resolved.
#[verifier::rlimit(100)]
pub proof fn lemma_spinner_stopped_at_end(s: SyncView, e: EventView)
    ensures
        sync_next(s, e).0.ctx == s.ctx,
        spinner_after(spins(s), sync_next(s, e).1.effects) == spins(sync_next(s, e).0),
        sync_next(s, e).1.next is Finish ==> !spinner_after(spins(s), sync_next(s, e).1.effects),
{
    reveal_with_fuel(spinner_after, 4);
    match s.phase {
        PhaseView::CheckRepo => {},
        PhaseView::SafeList => {},
        PhaseView::ReadExclude => {},
        PhaseView::LsConflictDir => {},
        PhaseView::History => {},
        PhaseView::Status => {},
        PhaseView::Fetch => {},
        PhaseView::Counting(_, _) => {},
        PhaseView::DryReport(_) => {},
        PhaseView::Identity(_, _) => {},
        PhaseView::AddAll => {},
        PhaseView::CommitTime => {},
        PhaseView::Commit => {},
        PhaseView::Recheck => {},
        PhaseView::HasUpstream => {},
        PhaseView::FirstRemote => {},
        PhaseView::CurrentBranch => {},
        PhaseView::LsRemote => {},
        PhaseView::PushUpstream => {},
        PhaseView::Pull => {},
        PhaseView::PullConflicts => {},
        PhaseView::ResolveList => {},
        PhaseView::BackupList => {},
        PhaseView::BackupTime => {},
        PhaseView::BackupOurs(_) => {},
        PhaseView::BackupTheirs(_) => {},
        PhaseView::Probe(_) => {},
        PhaseView::ResolveVerify => {},
        PhaseView::ResolveCommit => {},
        PhaseView::Push => {},
        PhaseView::Report => {},
        PhaseView::Done => {},
    }
}

/// Commits not yet on the remote are pushed: whenever the counted `ahead`
/// is above zero and the remote can be reached once the pull stage is over,
/// the next step runs `git push` — whether or not this sync committed or
/// pulled anything. The same holds when the pull stage is entered with
/// nothing to pull, and after a recount that leaves commits ahead.
pub proof fn lemma_ahead_commits_pushed(s: SyncView, fx: Seq<EffectView>, a: u32)
    requires
        s.remote_ok,
    ensures
        s.ahead > 0 ==> enter_push(s, fx).0.phase == PhaseView::Push,
        s.ahead > 0 ==> enter_push(s, fx).1.next == NextView::<OutView>::Ask(RequestView::Git(push_cmd())),
        (s.ahead > 0 && !s.did_pull && !s.had_conflict) ==> after_pull(s, fx).1.next
            == NextView::<OutView>::Ask(RequestView::Git(push_cmd())),
        (s.ahead > 0 && s.behind == 0 && !s.did_pull && !s.had_conflict) ==> enter_pull(s, fx).1.next
            == NextView::<OutView>::Ask(RequestView::Git(push_cmd())),
        a > 0 ==> after_counts(s, Stage::AfterPull, a, 0).1.next == NextView::<OutView>::Ask(
            RequestView::Git(push_cmd()),
        ),
        s.ahead == 0 ==> enter_push(s, fx).0.phase == PhaseView::Report,
{
}

/// The state after answering each of `es` in turn, starting from `s`.
pub open spec fn run_from(s: SyncView, es: Seq<EventView>) -> SyncView
    decreases es.len(),
{
    if es.len() == 0 {
        s
    } else {
        run_from(sync_next(s, es[0]).0, es.drop_first())
    }
}

proof fn lemma_offline_run(s: SyncView, es: Seq<EventView>)
    requires
        offline_safe(s),
    ensures
        offline_safe(run_from(s, es)),
        run_from(s, es).ctx == s.ctx,
    decreases es.len(),
{
    if es.len() > 0 {
        lemma_offline_never_remote(s, es[0]);
        lemma_offline_run(sync_next(s, es[0]).0, es.drop_first());
    }
}

proof fn lemma_dry_run_run(s: SyncView, es: Seq<EventView>)
    requires
        dry_run_safe(s),
    ensures
        dry_run_safe(run_from(s, es)),
        run_from(s, es).ctx == s.ctx,
    decreases es.len(),
{
    if es.len() > 0 {
        lemma_dry_run_never_changes(s, es[0]);
        lemma_dry_run_run(sync_next(s, es[0]).0, es.drop_first());
    }
}

/// Offline, whatever the answers, a sync never reaches a step that fetches,
/// pulls or pushes.
pub proof fn lemma_offline_sync_stays_local(
    repo: Seq<char>,
    idx: usize,
    total: usize,
    ctx: SyncContext,
    s: SyncView,
    es: Seq<EventView>,
)
    requires
        start_state(repo, idx, total, ctx, s),
        ctx.offline,
    ensures
        !is_network_phase(run_from(s, es).phase),
        !run_from(s, es).remote_ok,
{
    lemma_offline_run(s, es);
}

/// In a dry run, whatever the answers, a sync never reaches a step that
/// adds, commits, fetches, pulls or pushes.
pub proof fn lemma_dry_run_sync_changes_nothing(
    repo: Seq<char>,
    idx: usize,
    total: usize,
    ctx: SyncContext,
    s: SyncView,
    es: Seq<EventView>,
)
    requires
        start_state(repo, idx, total, ctx, s),
        ctx.dry_run,
    ensures
        dry_run_safe(run_from(s, es)),
        !(run_from(s, es).phase is AddAll),
        !(run_from(s, es).phase is Commit),
        !(run_from(s, es).phase is Fetch),
        !(run_from(s, es).phase is Pull),
        !(run_from(s, es).phase is Push),
        !(run_from(s, es).phase is PushUpstream),
{
    lemma_dry_run_run(s, es);
}

} // verus!
