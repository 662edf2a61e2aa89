use obsidian_sync::git::{read_global_config, read_global_config_result, Git, GitCommand, RunOutcome, Scope};
use obsidian_sync::machine::Request;

fn repo() -> Git {
    Git::new("/v/notes".to_string())
}

fn args(c: &GitCommand) -> Vec<String> {
    c.args.clone()
}

fn exited(code: i32, out: &str, err: &str) -> RunOutcome {
    RunOutcome::Exited { code: Some(code), stdout: out.as_bytes().to_vec(), stderr: err.as_bytes().to_vec() }
}

#[test]
fn command_arguments() {
    let g = repo();
    assert_eq!(args(&g.status_porcelain()), vec!["status", "--porcelain"]);
    assert_eq!(args(&g.fetch()), vec!["fetch", "--quiet"]);
    assert_eq!(g.fetch().timeout_secs, Some(30));
    assert_eq!(args(&g.ahead_behind()), vec!["rev-parse", "--abbrev-ref", "@{upstream}"]);
    assert_eq!(args(&g.ahead_behind_counts()), vec!["rev-list", "--left-right", "--count", "HEAD...@{upstream}"]);
    assert_eq!(args(&g.has_upstream()), vec!["rev-parse", "--abbrev-ref", "@{upstream}"]);
    assert_eq!(args(&g.first_remote()), vec!["remote"]);
    assert_eq!(args(&g.current_branch()), vec!["symbolic-ref", "--short", "-q", "HEAD"]);
    assert_eq!(args(&g.remote_branch_exists("origin", "main")), vec!["ls-remote", "--exit-code", "--heads", "origin", "main"]);
    assert_eq!(g.remote_branch_exists("origin", "main").timeout_secs, Some(15));
    assert_eq!(args(&g.add_all()), vec!["add", "-A", "--", "."]);
    assert_eq!(args(&g.commit("msg")), vec!["commit", "--no-verify", "--quiet", "-m", "msg"]);
    assert_eq!(g.commit("msg").timeout_secs, Some(15));
    assert_eq!(args(&g.pull()), vec!["pull", "--no-rebase", "--quiet"]);
    assert_eq!(g.pull().timeout_secs, Some(60));
    assert_eq!(args(&g.push()), vec!["push", "--quiet"]);
    assert_eq!(args(&g.push_set_upstream("origin")), vec!["push", "--quiet", "-u", "origin", "HEAD"]);
    assert_eq!(args(&g.set_upstream_to("origin", "main")), vec!["branch", "--set-upstream-to=origin/main"]);
    assert_eq!(args(&g.conflicted_files()), vec!["diff", "--name-only", "--diff-filter=U", "-z"]);
    assert_eq!(args(&g.checkout_ours("a.md")), vec!["checkout", "--ours", "--", "a.md"]);
    assert_eq!(args(&g.add_file("a.md")), vec!["add", "--", "a.md"]);
    assert_eq!(args(&g.rm_file("a.md")), vec!["rm", "-f", "--quiet", "--", "a.md"]);
    assert_eq!(args(&g.show_stage(3, "d/a.md")), vec!["show", ":3:d/a.md"]);
    assert_eq!(args(&g.cat_file_exists(":2:a.md")), vec!["cat-file", "-e", ":2:a.md"]);
    assert_eq!(args(&g.merge_abort()), vec!["merge", "--abort"]);
    assert_eq!(
        args(&g.log_recent(20)),
        vec!["log", "--all", "-n", "20", "--format=%cd|%s", "--date=format:%d/%m %H:%M"]
    );
    assert_eq!(args(&g.ensure_safe_directory()), vec!["config", "--global", "--get-all", "safe.directory"]);
    assert_eq!(g.ensure_safe_directory().scope, Scope::Global);
    assert_eq!(args(&g.untrack_conflict_dir(".sync-conflicts")), vec!["ls-files", "--", ".sync-conflicts"]);
    assert_eq!(args(&g.config_get("user.name")), vec!["config", "user.name"]);
    assert_eq!(args(&g.config_set("user.name", "Ann")), vec!["config", "user.name", "Ann"]);
    assert_eq!(args(&read_global_config("user.email")), vec!["config", "--global", "user.email"]);
    assert_eq!(read_global_config("user.email").scope, Scope::Global);
    assert_eq!(g.status_porcelain().timeout_secs, None);
    assert_eq!(g.status_porcelain().scope, Scope::Repo);
}

#[test]
fn is_repo_asks_for_the_git_folder() {
    match repo().is_repo() {
        Request::IsDir(p) => assert_eq!(p, "/v/notes/.git"),
        _ => panic!("expected a folder question"),
    }
}

#[test]
fn invocation_of_a_plain_command() {
    let g = repo();
    let inv = g.invocation(&g.status_porcelain(), true);
    assert_eq!(inv.program, "git");
    assert_eq!(inv.args, vec!["-C", "/v/notes", "-c", "core.hooksPath=/dev/null", "status", "--porcelain"]);
    assert_eq!(
        inv.env,
        vec![
            ("GIT_OPTIONAL_LOCKS".to_string(), "0".to_string()),
            ("GIT_TERMINAL_PROMPT".to_string(), "0".to_string()),
            ("GIT_SSH_COMMAND".to_string(), "ssh -oBatchMode=yes".to_string()),
        ]
    );
}

#[test]
fn invocation_under_timeout_on_unix_only() {
    let g = repo();
    let inv = g.invocation(&g.fetch(), true);
    assert_eq!(inv.program, "timeout");
    assert_eq!(inv.args, vec!["30s", "git", "-C", "/v/notes", "-c", "core.hooksPath=/dev/null", "fetch", "--quiet"]);
    let inv = g.invocation(&g.fetch(), false);
    assert_eq!(inv.program, "git");
    assert_eq!(inv.args, vec!["-C", "/v/notes", "-c", "core.hooksPath=/dev/null", "fetch", "--quiet"]);
}

#[test]
fn invocation_of_a_global_command() {
    let g = repo();
    let inv = g.invocation(&read_global_config("user.name"), true);
    assert_eq!(inv.program, "git");
    assert_eq!(inv.args, vec!["config", "--global", "user.name"]);
    assert!(inv.env.is_empty());
}

#[test]
fn run_results() {
    let g = repo();
    let st = g.status_porcelain();
    assert_eq!(Git::run_result(&st, true, &exited(0, " M a.md\n", "")), Ok(" M a.md\n".to_string()));
    assert_eq!(Git::run_result(&st, true, &exited(1, "", "fatal: x")), Err("fatal: x".to_string()));
    assert_eq!(
        Git::run_result(&st, true, &RunOutcome::SpawnFailed("No such file".to_string())),
        Err("git status --porcelain: No such file".to_string())
    );
    let f = g.fetch();
    assert_eq!(Git::run_result(&f, true, &exited(124, "", "")), Err("Таймаут 30с".to_string()));
    assert_eq!(Git::run_result(&f, false, &exited(124, "", "late")), Err("late".to_string()));
    assert_eq!(
        Git::run_result(&f, true, &RunOutcome::SpawnFailed("gone".to_string())),
        Err("timeout git fetch --quiet: gone".to_string())
    );
    let killed = RunOutcome::Exited { code: None, stdout: vec![], stderr: b"killed".to_vec() };
    assert_eq!(Git::run_result(&st, true, &killed), Err("killed".to_string()));
}

#[test]
fn invalid_utf8_output_is_replaced() {
    let g = repo();
    let o = RunOutcome::Exited { code: Some(0), stdout: vec![b'a', 0xff, b'b'], stderr: vec![] };
    assert_eq!(Git::run_result(&g.status_porcelain(), true, &o), Ok("a\u{FFFD}b".to_string()));
}

#[test]
fn counting_ahead_and_behind() {
    assert_eq!(Git::ahead_behind_result(&Ok("3\t5\n".to_string())), (3, 5));
    assert_eq!(Git::ahead_behind_result(&Ok("x 5".to_string())), (0, 5));
    assert_eq!(Git::ahead_behind_result(&Ok("1 2 3".to_string())), (0, 0));
    assert_eq!(Git::ahead_behind_result(&Ok("".to_string())), (0, 0));
    assert_eq!(Git::ahead_behind_result(&Err("no upstream".to_string())), (0, 0));
}

#[test]
fn remote_and_branch_from_output() {
    assert_eq!(Git::first_remote_result(&Ok("origin\nbackup\n".to_string())), Some("origin".to_string()));
    assert_eq!(Git::first_remote_result(&Ok("".to_string())), None);
    assert_eq!(Git::first_remote_result(&Err("x".to_string())), None);
    assert_eq!(Git::current_branch_result(&Ok(" main\n".to_string())), Some("main".to_string()));
    assert_eq!(Git::current_branch_result(&Err("detached".to_string())), None);
}

#[test]
fn conflicted_file_names() {
    assert_eq!(Git::conflicted_files_result(&Ok("a.md\0dir/b.md\0".to_string())), vec!["a.md", "dir/b.md"]);
    assert_eq!(Git::conflicted_files_result(&Ok("".to_string())), Vec::<String>::new());
    assert_eq!(Git::conflicted_files_result(&Err("x".to_string())), Vec::<String>::new());
}

#[test]
fn staged_versions() {
    assert_eq!(Git::show_stage_result(&exited(0, "ours", "")), Some(b"ours".to_vec()));
    assert_eq!(Git::show_stage_result(&exited(128, "", "no stage")), None);
    assert_eq!(Git::show_stage_result(&RunOutcome::SpawnFailed("x".to_string())), None);
}

#[test]
fn log_entries_split_at_the_first_bar() {
    let r = Ok("01/02 10:00|📱 Mobile sync|x\nno bar here\n02/02 11:00|Vault backup\n".to_string());
    assert_eq!(
        Git::log_recent_result(&r),
        vec![
            ("01/02 10:00".to_string(), "📱 Mobile sync|x".to_string()),
            ("02/02 11:00".to_string(), "Vault backup".to_string()),
        ]
    );
    assert!(Git::log_recent_result(&Err("x".to_string())).is_empty());
}

#[test]
fn safe_directory_entry() {
    let g = repo();
    assert!(g.ensure_safe_directory_result(&Ok("*\n".to_string())).is_none());
    assert!(g.ensure_safe_directory_result(&Ok("/a\n  /v/notes \n".to_string())).is_none());
    let c = g.ensure_safe_directory_result(&Ok("/a\n".to_string())).unwrap();
    assert_eq!(c.args, vec!["config", "--global", "--add", "safe.directory", "/v/notes"]);
    assert_eq!(c.scope, Scope::Global);
    assert!(g.ensure_safe_directory_result(&Err("none set".to_string())).is_some());
}

#[test]
fn exclude_entry_added_once() {
    let line = Git::ensure_conflict_dir_ignored("*.tmp\n", ".sync-conflicts");
    assert_eq!(line, Some("/.sync-conflicts/".to_string()));
    let after = format!("*.tmp\n{}\n", line.unwrap());
    assert_eq!(Git::ensure_conflict_dir_ignored(&after, ".sync-conflicts"), None);
    assert_eq!(Git::ensure_conflict_dir_ignored("", "c"), Some("/c/".to_string()));
    assert_eq!(Git::ensure_conflict_dir_ignored(" /c/\n", "c"), Some("/c/".to_string()));
}

#[test]
fn untracking_the_conflict_folder() {
    assert!(Git::untrack_conflict_dir_result(".sync-conflicts", &Ok("  \n".to_string())).is_none());
    assert!(Git::untrack_conflict_dir_result(".sync-conflicts", &Err("x".to_string())).is_none());
    let c = Git::untrack_conflict_dir_result(".sync-conflicts", &Ok(".sync-conflicts/a.ours\n".to_string())).unwrap();
    assert_eq!(c.args, vec!["rm", "-r", "--cached", "--quiet", "--", ".sync-conflicts"]);
}

#[test]
fn global_config_values() {
    assert_eq!(read_global_config_result(&Ok(" Ann \n".to_string())), "Ann");
    assert_eq!(read_global_config_result(&Err("unset".to_string())), "");
}

#[test]
fn duplicate_keeps_the_command() {
    let c = repo().fetch();
    let d = c.duplicate();
    assert_eq!(d.args, c.args);
    assert_eq!(d.timeout_secs, c.timeout_secs);
    assert_eq!(d.scope, c.scope);
}

#[test]
fn safe_directory_entry_added_once() {
    let g = repo();
    let listed = "/other\n".to_string();
    assert!(g.ensure_safe_directory_result(&Ok(listed.clone())).is_some());
    let after = format!("{}/v/notes\n", listed);
    assert!(g.ensure_safe_directory_result(&Ok(after)).is_none());
}
