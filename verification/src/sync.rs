//! Syncing one repository: the decisions of a sync, and the step machine
//! that walks through commit, pull (with conflict resolution) and push.
use vstd::prelude::*;
use crate::text::{
    all_ws, cat, cat3, contains, contains_str, is_blank, owned, to_chars, views,
};
use crate::ui::badge::SyncStatus;
use crate::sync_machine::{SyncContext, SyncMachine, SyncOut, sync_step_view, start_state, git_dir, OutView};
use crate::machine::{Step, StepView, NextView, RequestView};

verus! {

/// The outcome of syncing one repository, and the whole seconds it took.
#[derive(Debug, Clone, Copy, PartialEq, Eq, Structural)]
pub struct SyncResult {
    pub status: SyncStatus,
    pub elapsed: u64,
}

// -------------------------------------------------------------- sync info

/// `s` holds the char `c`.
pub open spec fn has_char(s: Seq<char>, c: char) -> bool {
    exists|i: int| 0 <= i < s.len() && s[i] == c
}

/// A commit made on the phone: its subject holds 📱, "Mobile" or "Termux".
pub open spec fn is_mobile_msg(m: Seq<char>) -> bool {
    has_char(m, '📱') || contains(m, "Mobile"@) || contains(m, "Termux"@)
}

/// A commit made on a computer: its subject holds 💻, "PC", "Vault backup"
/// or "backup".
pub open spec fn is_pc_msg(m: Seq<char>) -> bool {
    has_char(m, '💻') || contains(m, "PC"@) || contains(m, "Vault backup"@) || contains(m, "backup"@)
}

pub open spec fn from_device(m: Seq<char>, mobile: bool) -> bool {
    if mobile {
        is_mobile_msg(m)
    } else {
        is_pc_msg(m)
    }
}

/// The date of the newest commit from the device that has a non-empty date;
/// empty when there is none.
pub open spec fn last_seen(es: Seq<(Seq<char>, Seq<char>)>, mobile: bool) -> Seq<char>
    decreases es.len(),
{
    if es.len() == 0 {
        seq![]
    } else if from_device(es[0].1, mobile) && es[0].0.len() > 0 {
        es[0].0
    } else {
        last_seen(es.drop_first(), mobile)
    }
}

/// The sync-history line: "📱 <phone date>" and "💻 <computer date>" for those
/// found, two spaces apart, or a note that there is no history.
pub open spec fn sync_info_text(phone: Seq<char>, pc: Seq<char>) -> Seq<char> {
    let first = if phone.len() > 0 {
        "📱 "@ + phone
    } else {
        seq![]
    };
    let both = if pc.len() > 0 {
        first + (if first.len() > 0 {
            "  "@
        } else {
            seq![]
        }) + "💻 "@ + pc
    } else {
        first
    };
    if both.len() == 0 {
        "Нет истории синхронизации"@
    } else {
        both
    }
}

pub open spec fn sync_info_of(es: Seq<(Seq<char>, Seq<char>)>) -> Seq<char> {
    sync_info_text(last_seen(es, true), last_seen(es, false))
}

fn has_char_exec(s: &str, c: char) -> (r: bool)
    ensures
        r == has_char(s@, c),
{
    let v = to_chars(s);
    let mut i: usize = 0;
    while i < v.len()
        invariant
            v@ == s@,
            i <= v@.len(),
            forall|j: int| 0 <= j < i ==> v@[j] != c,
        decreases v.len() - i,
    {
        if v[i] == c {
            return true;
        }
        i = i + 1;
    }
    false
}

fn is_mobile(m: &str) -> (r: bool)
    ensures
        r == is_mobile_msg(m@),
{
    has_char_exec(m, '📱') || contains_str(m, "Mobile") || contains_str(m, "Termux")
}

fn is_pc(m: &str) -> (r: bool)
    ensures
        r == is_pc_msg(m@),
{
    has_char_exec(m, '💻') || contains_str(m, "PC") || contains_str(m, "Vault backup")
        || contains_str(m, "backup")
}

pub open spec fn entry_seq(v: Seq<(String, String)>) -> Seq<(Seq<char>, Seq<char>)> {
    v.map_values(|p: (String, String)| (p.0@, p.1@))
}

proof fn lemma_last_seen_skip(es: Seq<(Seq<char>, Seq<char>)>, i: int, mobile: bool)
    requires
        0 <= i < es.len(),
        !(from_device(es[i].1, mobile) && es[i].0.len() > 0),
    ensures
        last_seen(es.skip(i), mobile) == last_seen(es.skip(i + 1), mobile),
{
    assert(es.skip(i).drop_first() =~= es.skip(i + 1));
}

/// The sync-history line from the recent log entries `(date, subject)`,
/// newest first.
pub fn build_sync_info(log: &Vec<(String, String)>) -> (info: String)
    ensures
        info@ == sync_info_of(entry_seq(log@)),
{
    let ghost es = entry_seq(log@);
    let mut phone = String::new();
    let mut pc = String::new();
    let mut i: usize = 0;
    let mut found_both = false;
    assert(es.skip(0) =~= es);
    while i < log.len() && !found_both
        invariant
            es == entry_seq(log@),
            i <= log@.len(),
            found_both ==> phone@.len() > 0 && pc@.len() > 0,
            phone@.len() == 0 ==> last_seen(es, true) == last_seen(es.skip(i as int), true),
            phone@.len() > 0 ==> phone@ == last_seen(es, true),
            pc@.len() == 0 ==> last_seen(es, false) == last_seen(es.skip(i as int), false),
            pc@.len() > 0 ==> pc@ == last_seen(es, false),
        decreases log.len() - i,
    {
        let ghost e = es[i as int];
        assert(e.0 == log@[i as int].0@ && e.1 == log@[i as int].1@);
        assert(es.skip(i as int)[0] == e);
        if phone.unicode_len() == 0 && is_mobile(log[i].1.as_str()) {
            phone = log[i].0.clone();
        }
        proof {
            if phone@.len() == 0 {
                lemma_last_seen_skip(es, i as int, true);
            }
        }
        if pc.unicode_len() == 0 && is_pc(log[i].1.as_str()) {
            pc = log[i].0.clone();
        }
        proof {
            if pc@.len() == 0 {
                lemma_last_seen_skip(es, i as int, false);
            }
        }
        if phone.unicode_len() > 0 && pc.unicode_len() > 0 {
            found_both = true;
        }
        i = i + 1;
    }
    proof {
        if !found_both {
            assert(es.skip(i as int) =~= seq![]);
        }
    }
    let mut info = String::new();
    if phone.unicode_len() > 0 {
        info = cat("📱 ", phone.as_str());
    }
    if pc.unicode_len() > 0 {
        if info.unicode_len() > 0 {
            info.append("  ");
        }
        info.append("💻 ");
        info.append(pc.as_str());
    }
    if info.unicode_len() == 0 {
        info = owned("Нет истории синхронизации");
    }
    info
}

// ------------------------------------------------------------------ plans

/// What a dry run reports: the status the sync would reach and the actions
/// it would take.
pub open spec fn plan_of(local_changes: Seq<char>, remote_ok: bool, ahead: u32, behind: u32) -> (
    SyncStatus,
    Seq<char>,
) {
    let would_commit = !all_ws(local_changes);
    let would_pull = remote_ok && behind > 0;
    let would_push = remote_ok && (ahead > 0 || would_commit);
    if would_commit && would_pull {
        (SyncStatus::Bidirectional, "commit + pull + push"@)
    } else if would_commit && would_push {
        (SyncStatus::Committed, "commit + push"@)
    } else if would_commit {
        (SyncStatus::Committed, "commit"@)
    } else if would_pull && would_push {
        (SyncStatus::Bidirectional, "pull + push"@)
    } else if would_pull {
        (SyncStatus::Pulled, "pull"@)
    } else if would_push {
        (SyncStatus::Pushed, "push"@)
    } else {
        (SyncStatus::UpToDate, "без изменений"@)
    }
}

/// The actions a sync would take, in the order it takes them: a commit when
/// there are local changes, a pull when the remote can be reached and is
/// ahead, a push when the remote can be reached and there are commits to
/// send (already ahead, or about to be committed).
pub open spec fn planned_actions(local_changes: Seq<char>, remote_ok: bool, ahead: u32, behind: u32) -> Seq<Seq<char>> {
    let commit = !all_ws(local_changes);
    (if commit {
        seq!["commit"@]
    } else {
        seq![]
    }) + (if remote_ok && behind > 0 {
        seq!["pull"@]
    } else {
        seq![]
    }) + (if remote_ok && (ahead > 0 || commit) {
        seq!["push"@]
    } else {
        seq![]
    })
}

/// The dry run's plan lists exactly the actions the sync would take, joined
/// by " + " (or says there are none), and its status follows them: both
/// directions when it would pull and push, a commit when it would commit
/// without pulling, a pull or a push alone, or up to date.
pub proof fn lemma_plan_lists_actions(local_changes: Seq<char>, remote_ok: bool, ahead: u32, behind: u32)
    ensures
        ({
            let acts = planned_actions(local_changes, remote_ok, ahead, behind);
            plan_of(local_changes, remote_ok, ahead, behind).1 == if acts.len() == 0 {
                "без изменений"@
            } else {
                crate::text::join(acts, " + "@)
            }
        }),
        ({
            let commit = !all_ws(local_changes);
            let pull = remote_ok && behind > 0;
            let push = remote_ok && (ahead > 0 || commit);
            let st = plan_of(local_changes, remote_ok, ahead, behind).0;
            &&& (st == SyncStatus::Bidirectional) == (pull && push)
            &&& (st == SyncStatus::Committed) == (commit && !pull)
            &&& (st == SyncStatus::Pulled) == (pull && !push)
            &&& (st == SyncStatus::Pushed) == (push && !commit && !pull)
            &&& (st == SyncStatus::UpToDate) == (!commit && !pull && !push)
        }),
{
    reveal_strlit("commit");
    reveal_strlit("pull");
    reveal_strlit("push");
    reveal_strlit(" + ");
    reveal_strlit("commit + pull + push");
    reveal_strlit("commit + push");
    reveal_strlit("pull + push");
    let acts = planned_actions(local_changes, remote_ok, ahead, behind);
    let j2 = crate::text::join(seq!["commit"@, "push"@], " + "@);
    assert(seq!["commit"@, "push"@].drop_last() =~= seq!["commit"@]);
    assert(crate::text::join(seq!["commit"@], " + "@) == "commit"@);
    assert(j2 == "commit"@ + " + "@ + "push"@);
    assert(j2 =~= "commit + push"@);
    let j3 = crate::text::join(seq!["pull"@, "push"@], " + "@);
    assert(seq!["pull"@, "push"@].drop_last() =~= seq!["pull"@]);
    assert(crate::text::join(seq!["pull"@], " + "@) == "pull"@);
    assert(j3 == "pull"@ + " + "@ + "push"@);
    assert(j3 =~= "pull + push"@);
    let j4 = crate::text::join(seq!["commit"@, "pull"@, "push"@], " + "@);
    assert(seq!["commit"@, "pull"@, "push"@].drop_last() =~= seq!["commit"@, "pull"@]);
    assert(seq!["commit"@, "pull"@].drop_last() =~= seq!["commit"@]);
    assert(crate::text::join(seq!["commit"@, "pull"@], " + "@) == "commit"@ + " + "@ + "pull"@);
    assert(j4 == "commit"@ + " + "@ + "pull"@ + " + "@ + "push"@);
    assert(j4 =~= "commit + pull + push"@);
    let commit = !all_ws(local_changes);
    let pull = remote_ok && behind > 0;
    let push = remote_ok && (ahead > 0 || commit);
    if commit && pull {
        assert(acts =~= seq!["commit"@, "pull"@, "push"@]);
    } else if commit && push {
        assert(acts =~= seq!["commit"@, "push"@]);
    } else if commit {
        assert(acts =~= seq!["commit"@]);
    } else if pull && push {
        assert(acts =~= seq!["pull"@, "push"@]);
    } else if pull {
        assert(acts =~= seq!["pull"@]);
    } else if push {
        assert(acts =~= seq!["push"@]);
    } else {
        assert(acts =~= seq![]);
    }
}

/// The plan of a dry run, from the status output, whether the remote can be
/// reached, and the commit counts.
pub fn dry_run_plan(local_changes: &str, remote_ok: bool, ahead: u32, behind: u32) -> (r: (
    SyncStatus,
    String,
))
    ensures
        (r.0, r.1@) == plan_of(local_changes@, remote_ok, ahead, behind),
{
    let would_commit = !is_blank(local_changes);
    let would_pull = remote_ok && behind > 0;
    let would_push = remote_ok && (ahead > 0 || would_commit);
    if would_commit && would_pull {
        (SyncStatus::Bidirectional, owned("commit + pull + push"))
    } else if would_commit && would_push {
        (SyncStatus::Committed, owned("commit + push"))
    } else if would_commit {
        (SyncStatus::Committed, owned("commit"))
    } else if would_pull && would_push {
        (SyncStatus::Bidirectional, owned("pull + push"))
    } else if would_pull {
        (SyncStatus::Pulled, owned("pull"))
    } else if would_push {
        (SyncStatus::Pushed, owned("push"))
    } else {
        (SyncStatus::UpToDate, owned("без изменений"))
    }
}

/// The status a finished sync reports: a resolved conflict wins, then a
/// pull together with a push, then, when the remote could not be reached and
/// nothing was done, offline; otherwise the status reached so far.
pub open spec fn final_status(
    status: SyncStatus,
    remote_ok: bool,
    did_commit: bool,
    did_pull: bool,
    did_push: bool,
    had_conflict: bool,
) -> SyncStatus {
    if had_conflict {
        SyncStatus::Conflict
    } else if did_pull && did_push {
        SyncStatus::Bidirectional
    } else if !remote_ok && !did_commit && !did_pull && !did_push {
        SyncStatus::Offline
    } else {
        status
    }
}

pub fn settle_status(
    status: SyncStatus,
    remote_ok: bool,
    did_commit: bool,
    did_pull: bool,
    did_push: bool,
    had_conflict: bool,
) -> (r: SyncStatus)
    ensures
        r == final_status(status, remote_ok, did_commit, did_pull, did_push, had_conflict),
{
    if had_conflict {
        SyncStatus::Conflict
    } else if did_pull && did_push {
        SyncStatus::Bidirectional
    } else if !remote_ok && !did_commit && !did_pull && !did_push {
        SyncStatus::Offline
    } else {
        status
    }
}

// --------------------------------------------------------- conflict files

/// Each `from` in `s` replaced by the text `to` (`str::replace` with a char
/// pattern).
pub open spec fn replace_char(s: Seq<char>, from: char, to: Seq<char>) -> Seq<char>
    decreases s.len(),
{
    if s.len() == 0 {
        seq![]
    } else {
        replace_char(s.drop_last(), from, to) + (if s.last() == from {
            to
        } else {
            seq![s.last()]
        })
    }
}

fn replace_char_exec(s: &str, from: char, to: &str) -> (r: String)
    ensures
        r@ == replace_char(s@, from, to@),
{
    let v = to_chars(s);
    let mut r = String::new();
    let mut i: usize = 0;
    assert(v@.take(0) =~= seq![]);
    while i < v.len()
        invariant
            v@ == s@,
            i <= v@.len(),
            r@ == replace_char(v@.take(i as int), from, to@),
        decreases v.len() - i,
    {
        assert(v@.take(i + 1).drop_last() =~= v@.take(i as int));
        if v[i] == from {
            r.append(to);
        } else {
            crate::text::string_push(&mut r, v[i]);
            assert(r@ =~= replace_char(v@.take(i as int), from, to@) + seq![v@[i as int]]);
        }
        i = i + 1;
    }
    assert(v@.take(v@.len() as int) =~= v@);
    r
}

/// The file name under which a conflicted file is backed up: slashes become
/// `__`, newlines `_`.
pub open spec fn safe_name(f: Seq<char>) -> Seq<char> {
    replace_char(replace_char(f, '/', "__"@), '\n', "_"@)
}

pub fn backup_safe_name(f: &str) -> (r: String)
    ensures
        r@ == safe_name(f@),
{
    let a = replace_char_exec(f, '/', "__");
    replace_char_exec(a.as_str(), '\n', "_")
}

// ------------------------------------------------------------ sync_repo

/// Starts syncing the repository at `repo`, the `idx`-th of `total`: the
/// machine's first step asks whether the folder holds a `.git` folder.
/// Feed each answer to `SyncMachine::resume` until it finishes.
pub fn sync_repo(repo: String, idx: usize, total: usize, ctx: SyncContext) -> (r: (SyncMachine, Step<SyncOut>))
    ensures
        start_state(repo@, idx, total, ctx, r.0@),
        sync_step_view(r.1) == (StepView::<OutView> {
            effects: seq![],
            next: NextView::Ask(RequestView::IsDir(git_dir(repo@))),
        }),
{
    crate::sync_machine::start(repo, idx, total, ctx)
}

} // verus!
