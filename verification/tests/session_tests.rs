use obsidian_sync::git::RunOutcome;
use obsidian_sync::machine::{Effect, Event, Next, Request};
use obsidian_sync::session::{
    check_requirements, done_log, exit_code, filter_repos, lock_failed_lines, no_repos_lines, offline_lines,
    repo_not_found_lines, root_missing_lines, run_flags, should_descend, Tally,
};
use obsidian_sync::sync::SyncResult;
use obsidian_sync::ui::badge::SyncStatus;
use obsidian_sync::ui::theme::Theme;
use obsidian_sync::ui::Ui;

fn ui() -> Ui {
    Ui::new(Theme::Classic, false, false, false, false, 10)
}

fn v(items: &[&str]) -> Vec<String> {
    items.iter().map(|s| s.to_string()).collect()
}

#[test]
fn header_flags() {
    assert_eq!(run_flags(true, true, true), v(&["dry-run", "compact", "silent"]));
    assert_eq!(run_flags(true, false, true), v(&["dry-run", "silent"]));
    assert!(run_flags(false, false, false).is_empty());
}

#[test]
fn repo_filter_by_path_or_name() {
    let repos = v(&["/v/notes", "/v/work/", "/v/other"]);
    assert_eq!(filter_repos(&repos, "notes"), v(&["/v/notes"]));
    assert_eq!(filter_repos(&repos, "/v/work"), v(&["/v/work/"]));
    assert_eq!(filter_repos(&repos, "/v/other//"), v(&["/v/other"]));
    assert_eq!(filter_repos(&repos, "work/"), v(&["/v/work/"]));
    assert!(filter_repos(&repos, "zzz").is_empty());
    assert_eq!(filter_repos(&v(&["/a/x", "/b/x"]), "x"), v(&["/a/x", "/b/x"]));
}

#[test]
fn walk_skips_git_and_node_modules() {
    assert!(!should_descend(".git"));
    assert!(!should_descend("node_modules"));
    assert!(should_descend(".github"));
    assert!(should_descend("notes"));
}

#[test]
fn tally_counts_each_outcome_once() {
    let u = ui();
    let mut t = Tally::new();
    assert!(t.record(&u, &Ok(SyncResult { status: SyncStatus::Pushed, elapsed: 1 })).is_empty());
    assert!(t.record(&u, &Ok(SyncResult { status: SyncStatus::Conflict, elapsed: 1 })).is_empty());
    assert!(t.record(&u, &Ok(SyncResult { status: SyncStatus::Offline, elapsed: 0 })).is_empty());
    assert!(t.record(&u, &Ok(SyncResult { status: SyncStatus::Error, elapsed: 0 })).is_empty());
    let lines = t.record(&u, &Err("notes: Pull failed".to_string()));
    assert_eq!(lines, v(&[" [ FAIL ] notes: Pull failed"]));
    assert_eq!((t.ok, t.warn, t.err), (1, 2, 2));
    assert_eq!(t.errors, v(&["notes: Pull failed"]));
    assert_eq!(t.ok + t.warn + t.err, 5);
}

#[test]
fn failure_line_in_colour() {
    let u = Ui::new(Theme::Classic, false, false, true, false, 10);
    let mut t = Tally::new();
    assert_eq!(t.record(&u, &Err("x".to_string())), v(&[" \x1b[0;31m[ FAIL ]\x1b[0m x"]));
}

#[test]
fn closing_log_and_exit_code() {
    assert_eq!(done_log(1, 2, 3, 4), "=== Sync done: OK=1 WARN=2 ERR=3 DURATION=4s ===");
    assert_eq!(exit_code(0), 0);
    assert_eq!(exit_code(2), 1);
}

#[test]
fn messages() {
    let u = ui();
    assert_eq!(lock_failed_lines(&u, "Sync already running (PID 5)"), v(&["❌ Sync already running (PID 5)"]));
    assert_eq!(offline_lines(&u, false, false), v(&["  ⚠️  Offline mode — remote sync skipped"]));
    assert!(offline_lines(&u, true, false).is_empty());
    assert!(offline_lines(&u, false, true).is_empty());
    assert_eq!(root_missing_lines(&u, "/r"), v(&["❌ Root directory not found: /r"]));
    assert_eq!(no_repos_lines(&u, "/r"), (v(&["  ⚠️  No git repositories found in:"]), v(&["  /r"])));
    assert_eq!(repo_not_found_lines(&u, "notes//"), v(&["⚠️  Repository not found: notes"]));
    let quiet = Ui::new(Theme::Classic, true, false, false, false, 10);
    assert!(lock_failed_lines(&quiet, "x").is_empty());
}

fn exit_with(code: i32) -> Event {
    Event::Ran(RunOutcome::Exited { code: Some(code), stdout: vec![], stderr: vec![] })
}

fn program(r: &Request) -> String {
    match r {
        Request::Program { program, args } => format!("{} {}", program, args.join(" ")),
        Request::IsDir(p) => format!("isdir {}", p),
        _ => "other".to_string(),
    }
}

fn prints(fx: &[Effect]) -> Vec<String> {
    let mut out = vec![];
    for e in fx {
        if let Effect::Print(lines) = e {
            out.extend(lines.iter().cloned());
        }
    }
    out
}

#[test]
fn requirements_all_present() {
    let (mut m, step) = check_requirements(&ui(), "/r", false);
    match &step.next {
        Next::Ask(r) => assert_eq!(program(r), "which git"),
        _ => panic!(),
    }
    let step = m.resume(exit_with(0));
    match &step.next {
        Next::Ask(r) => assert_eq!(program(r), "which find"),
        _ => panic!(),
    }
    let step = m.resume(exit_with(0));
    match step.next {
        Next::Finish(ok) => assert!(ok),
        _ => panic!(),
    }
}

#[test]
fn requirements_missing_program() {
    let (mut m, _) = check_requirements(&ui(), "/r", false);
    let step = m.resume(exit_with(1));
    match &step.next {
        Next::Ask(r) => assert_eq!(program(r), "git --version"),
        _ => panic!(),
    }
    let step = m.resume(exit_with(0));
    match &step.next {
        Next::Ask(r) => assert_eq!(program(r), "which find"),
        _ => panic!(),
    }
    let step = m.resume(exit_with(1));
    match &step.next {
        Next::Ask(r) => assert_eq!(program(r), "find --version"),
        _ => panic!(),
    }
    let step = m.resume(Event::Ran(RunOutcome::SpawnFailed("not found".to_string())));
    assert_eq!(prints(&step.effects), v(&["✘ Missing: find"]));
    match step.next {
        Next::Finish(ok) => assert!(!ok),
        _ => panic!(),
    }
}

#[test]
fn requirements_android_storage() {
    let root = "/storage/emulated/0/Documents/Vaults";
    let (mut m, _) = check_requirements(&ui(), root, true);
    m.resume(exit_with(0));
    let step = m.resume(exit_with(0));
    match &step.next {
        Next::Ask(r) => assert_eq!(program(r), format!("isdir {}", root)),
        _ => panic!(),
    }
    let step = m.resume(Event::Flag(false));
    assert_eq!(
        prints(&step.effects),
        v(&[&format!("✘ Cannot access: {}", root), "💡 Run: termux-setup-storage"])
    );
    match step.next {
        Next::Finish(ok) => assert!(!ok),
        _ => panic!(),
    }
    let (mut m, _) = check_requirements(&ui(), "/home/u/Vaults", true);
    m.resume(exit_with(0));
    match m.resume(exit_with(0)).next {
        Next::Finish(ok) => assert!(ok),
        _ => panic!(),
    }
}
