use obsidian_sync::git::{GitCommand, RunOutcome};
use obsidian_sync::machine::{Effect, Event, Next, Request, Step};
use obsidian_sync::sync::{backup_safe_name, build_sync_info, dry_run_plan, settle_status, sync_repo, SyncResult};
use obsidian_sync::sync_machine::{SyncContext, SyncMachine, SyncOut};
use obsidian_sync::ui::badge::SyncStatus;
use obsidian_sync::ui::theme::Theme;
use obsidian_sync::ui::Ui;

fn ok(out: &str) -> Event {
    Event::Ran(RunOutcome::Exited { code: Some(0), stdout: out.as_bytes().to_vec(), stderr: vec![] })
}

fn failed(code: i32, err: &str) -> Event {
    Event::Ran(RunOutcome::Exited { code: Some(code), stdout: vec![], stderr: err.as_bytes().to_vec() })
}

fn git_text(c: &GitCommand) -> String {
    c.args.join(" ")
}

fn effect_text(e: &Effect) -> String {
    match e {
        Effect::Print(v) => format!("print:{}", v.join("|")),
        Effect::Log(s) => format!("log:{}", s),
        Effect::SpinnerStart(s) => format!("spin:{}", s),
        Effect::SpinnerStop => "stop".to_string(),
        Effect::Git(c) => format!("git:{}", git_text(c)),
        Effect::CreateDirAll(p) => format!("mkdir:{}", p),
        Effect::AppendLine { path, line } => format!("append:{}:{}", path, line),
        Effect::WriteFile { path, data } => format!("write:{}:{}", path, String::from_utf8_lossy(data)),
        Effect::CleanupOld(p) => format!("cleanup:{}", p),
        Effect::WritePid(p) => format!("pid:{}", p),
        Effect::RemoveDirAll(p) => format!("rmdir:{}", p),
    }
}

fn request_text(r: &Request) -> String {
    match r {
        Request::Git(c) => format!("git {}", git_text(c)),
        Request::Program { program, args } => format!("run {} {}", program, args.join(" ")),
        Request::Interactive { program, args } => format!("tty {} {}", program, args.join(" ")),
        Request::IsDir(p) => format!("isdir {}", p),
        Request::CreateDir(p) => format!("mkdir {}", p),
        Request::ReadFile(p) => format!("read {}", p),
        Request::ProcessAlive(pid) => format!("alive {}", pid),
        Request::Time(_) => "time".to_string(),
        Request::Elapsed => "elapsed".to_string(),
    }
}

struct Trace {
    effects: Vec<String>,
    requests: Vec<String>,
    result: SyncOut,
}

fn drive(mut m: SyncMachine, first: Step<SyncOut>, answer: &mut dyn FnMut(&str) -> Event) -> Trace {
    let mut effects = vec![];
    let mut requests = vec![];
    let mut step = first;
    for _ in 0..200 {
        for e in &step.effects {
            effects.push(effect_text(e));
        }
        match step.next {
            Next::Finish(r) => return Trace { effects, requests, result: r },
            Next::Ask(req) => {
                let t = request_text(&req);
                requests.push(t.clone());
                let ev = answer(&t);
                step = m.resume(ev);
            }
        }
    }
    panic!("the sync did not finish");
}

fn plain_ui(compact: bool) -> Ui {
    Ui::new(Theme::Amoled, false, compact, false, false, 10)
}

fn ctx(offline: bool, dry_run: bool) -> SyncContext {
    SyncContext { ui: plain_ui(false), offline, dry_run, unix: true }
}

fn count_of(v: &[String], s: &str) -> usize {
    v.iter().filter(|x| x.as_str() == s).count()
}

#[test]
fn not_a_repository() {
    let (m, first) = sync_repo("/v/notes".to_string(), 1, 1, ctx(false, false));
    let t = drive(m, first, &mut |_| Event::Flag(false));
    assert_eq!(t.requests, vec!["isdir /v/notes/.git"]);
    assert_eq!(t.effects, vec!["log:ERROR: Not a git repo: /v/notes"]);
    assert_eq!(t.result, Err("notes: Отсутствует папка .git".to_string()));
}

#[test]
fn offline_sync_stays_local() {
    let (m, first) = sync_repo("/v/notes".to_string(), 1, 1, ctx(true, false));
    let mut answer = |r: &str| -> Event {
        match r {
            "isdir /v/notes/.git" => Event::Flag(true),
            "git config --global --get-all safe.directory" => ok("*\n"),
            "read /v/notes/.git/info/exclude" => Event::Text(Some("/.sync-conflicts/\n".to_string())),
            "git ls-files -- .sync-conflicts" => ok(""),
            "git log --all -n 20 --format=%cd|%s --date=format:%d/%m %H:%M" => ok("01/02 10:00|📱 Mobile sync 2024\n"),
            "git status --porcelain" => ok(""),
            "git rev-parse --abbrev-ref @{upstream}" => ok("origin/main\n"),
            "git rev-list --left-right --count HEAD...@{upstream}" => ok("0\t2\n"),
            "elapsed" => Event::Seconds(4),
            other => panic!("unexpected request {}", other),
        }
    };
    let t = drive(m, first, &mut answer);
    assert_eq!(t.result, Ok(SyncResult { status: SyncStatus::Offline, elapsed: 4 }));
    for r in &t.requests {
        assert!(!r.starts_with("git fetch") && !r.starts_with("git pull") && !r.starts_with("git push"));
        assert!(!r.starts_with("git ls-remote"));
    }
    assert_eq!(
        t.effects,
        vec![
            "mkdir:/v/notes/.git/info",
            "stop",
            "print: [1/1] notes [ OFF ] 4s|        📱 01/02 10:00|        ↳ офлайн, remote-операции пропущены|",
        ]
    );
}

#[test]
fn commit_pull_and_push() {
    let (m, first) = sync_repo("/v/notes".to_string(), 2, 3, ctx(false, false));
    let mut counts = vec!["3\t0\n", "2\t2\n", "1\t2\n"];
    let mut answer = |r: &str| -> Event {
        match r {
            "isdir /v/notes/.git" => Event::Flag(true),
            "git config --global --get-all safe.directory" => ok(""),
            "read /v/notes/.git/info/exclude" => Event::Text(None),
            "git ls-files -- .sync-conflicts" => ok(""),
            "git log --all -n 20 --format=%cd|%s --date=format:%d/%m %H:%M" => ok(""),
            "git status --porcelain" => ok(" M a.md\n"),
            "git fetch --quiet" => ok(""),
            "git rev-parse --abbrev-ref @{upstream}" => ok("origin/main\n"),
            "git rev-list --left-right --count HEAD...@{upstream}" => ok(counts.pop().unwrap()),
            "git config user.name" => ok("Ann\n"),
            "git config user.email" => ok("ann@example.org\n"),
            "git add -A -- ." => ok(""),
            "time" => Event::Text(Some("2024-01-01 10:00".to_string())),
            "git commit --no-verify --quiet -m 📱 Mobile sync 2024-01-01 10:00" => ok(""),
            "git pull --no-rebase --quiet" => ok(""),
            "git push --quiet" => ok(""),
            "elapsed" => Event::Seconds(9),
            other => panic!("unexpected request {}", other),
        }
    };
    let t = drive(m, first, &mut answer);
    assert_eq!(t.result, Ok(SyncResult { status: SyncStatus::Bidirectional, elapsed: 9 }));
    assert_eq!(count_of(&t.requests, "git pull --no-rebase --quiet"), 1);
    assert_eq!(count_of(&t.requests, "git push --quiet"), 1);
    assert_eq!(count_of(&t.requests, "git config user.name"), 2);
    assert!(t.effects.contains(&"git:config --global --add safe.directory /v/notes".to_string()));
    assert!(t.effects.contains(&"append:/v/notes/.git/info/exclude:/.sync-conflicts/".to_string()));
    assert!(t.effects.contains(&"log:Committed local changes in notes".to_string()));
    assert!(t.effects.contains(&"log:Pulled 2 commit(s) in notes".to_string()));
    assert!(t.effects.contains(&"log:Pushed 3 commit(s) in notes".to_string()));
    assert_eq!(
        t.effects.last().unwrap(),
        "print: [2/3] notes [ SYNC ] 9s|        Нет истории синхронизации|        ↳ двунаправленная синхронизация|"
    );
}

#[test]
fn conflict_keeps_the_local_side() {
    let (m, first) = sync_repo("/v/notes".to_string(), 1, 1, ctx(false, false));
    let mut counts = vec!["1\t0\n", "0\t1\n", "0\t1\n"];
    let mut answer = |r: &str| -> Event {
        match r {
            "isdir /v/notes/.git" => Event::Flag(true),
            "git config --global --get-all safe.directory" => ok("/v/notes\n"),
            "read /v/notes/.git/info/exclude" => Event::Text(Some("/.sync-conflicts/\n".to_string())),
            "git ls-files -- .sync-conflicts" => ok(".sync-conflicts/old.ours\n"),
            "git log --all -n 20 --format=%cd|%s --date=format:%d/%m %H:%M" => ok("02/02 09:00|Vault backup\n"),
            "git status --porcelain" => ok(""),
            "git fetch --quiet" => ok(""),
            "git rev-parse --abbrev-ref @{upstream}" => ok("origin/main\n"),
            "git rev-list --left-right --count HEAD...@{upstream}" => ok(counts.pop().unwrap()),
            "git pull --no-rebase --quiet" => failed(1, "CONFLICT"),
            "git diff --name-only --diff-filter=U -z" => ok("a.md\0b/c.md\0"),
            "time" => Event::Text(Some("20240101_120000".to_string())),
            "git show :2:a.md" => ok("mine"),
            "git show :3:a.md" => ok("theirs"),
            "git show :2:b/c.md" => failed(128, "no stage 2"),
            "git show :3:b/c.md" => ok("remote c"),
            "git cat-file -e :2:a.md" => ok(""),
            "git cat-file -e :2:b/c.md" => failed(128, ""),
            "git config user.name" => ok("Ann\n"),
            "git config user.email" => ok("ann@example.org\n"),
            "git commit --no-verify --quiet -m 🔧 Auto-resolve conflict (keep local)" => ok(""),
            "git push --quiet" => ok(""),
            "elapsed" => Event::Seconds(0),
            other => panic!("unexpected request {}", other),
        }
    };
    let mut diffs = 0;
    let mut wrapped = |r: &str| -> Event {
        if r == "git diff --name-only --diff-filter=U -z" {
            diffs += 1;
            if diffs == 4 {
                return ok("");
            }
        }
        answer(r)
    };
    let t = drive(m, first, &mut wrapped);
    assert_eq!(t.result, Ok(SyncResult { status: SyncStatus::Conflict, elapsed: 0 }));
    let e = &t.effects;
    assert!(e.contains(&"git:rm -r --cached --quiet -- .sync-conflicts".to_string()));
    assert!(e.contains(&"mkdir:/v/notes/.sync-conflicts".to_string()));
    assert!(e.contains(&"write:/v/notes/.sync-conflicts/a.ours:mine".to_string()));
    assert!(e.contains(&"write:/v/notes/.sync-conflicts/a.theirs:theirs".to_string()));
    assert!(e.contains(&"write:/v/notes/.sync-conflicts/b__c.theirs:remote c".to_string()));
    assert!(!e.iter().any(|x| x.starts_with("write:/v/notes/.sync-conflicts/b__c.ours")));
    assert!(e.contains(&"cleanup:/v/notes/.sync-conflicts".to_string()));
    let ours = e.iter().position(|x| x == "git:checkout --ours -- a.md").unwrap();
    let add = e.iter().position(|x| x == "git:add -- a.md").unwrap();
    assert!(ours < add);
    assert!(e.contains(&"git:rm -f --quiet -- b/c.md".to_string()));
    assert!(!e.iter().any(|x| x.contains("--theirs")));
    assert!(e.contains(&"log:Conflict auto-resolved in notes".to_string()));
    assert_eq!(
        e.last().unwrap(),
        "print: [1/1] notes [ CONF ]|        💻 02/02 09:00|        ↳ конфликт, оставлена локальная версия|"
    );
}

#[test]
fn failed_resolution_aborts_the_merge() {
    let (m, first) = sync_repo("/v/notes".to_string(), 1, 1, ctx(false, false));
    let mut answer = |r: &str| -> Event {
        match r {
            "isdir /v/notes/.git" => Event::Flag(true),
            "git config --global --get-all safe.directory" => ok("*\n"),
            "read /v/notes/.git/info/exclude" => Event::Text(Some("/.sync-conflicts/\n".to_string())),
            "git ls-files -- .sync-conflicts" => ok(""),
            "git log --all -n 20 --format=%cd|%s --date=format:%d/%m %H:%M" => ok(""),
            "git status --porcelain" => ok(""),
            "git fetch --quiet" => ok(""),
            "git rev-parse --abbrev-ref @{upstream}" => ok("origin/main\n"),
            "git rev-list --left-right --count HEAD...@{upstream}" => ok("0\t1\n"),
            "git pull --no-rebase --quiet" => failed(1, "CONFLICT"),
            "git diff --name-only --diff-filter=U -z" => ok("a.md\0"),
            "time" => Event::Text(Some("T".to_string())),
            "git show :2:a.md" => ok("mine"),
            "git show :3:a.md" => ok("theirs"),
            "git cat-file -e :2:a.md" => ok(""),
            other => panic!("unexpected request {}", other),
        }
    };
    let t = drive(m, first, &mut answer);
    assert_eq!(t.result, Err("notes: Не удалось разрешить конфликт до чистого индекса".to_string()));
    assert_eq!(t.effects.last().unwrap(), "git:merge --abort");
}

#[test]
fn pull_failure_without_conflicts() {
    let (m, first) = sync_repo("/v/notes".to_string(), 1, 1, ctx(false, false));
    let mut answer = |r: &str| -> Event {
        match r {
            "isdir /v/notes/.git" => Event::Flag(true),
            "read /v/notes/.git/info/exclude" => Event::Text(Some("/.sync-conflicts/\n".to_string())),
            "git rev-list --left-right --count HEAD...@{upstream}" => ok("0\t1\n"),
            "git pull --no-rebase --quiet" => failed(1, "network"),
            "git diff --name-only --diff-filter=U -z" => ok(""),
            _ => ok(""),
        }
    };
    let t = drive(m, first, &mut answer);
    assert_eq!(t.result, Err("notes: Pull failed".to_string()));
    assert_eq!(t.effects.last().unwrap(), "stop");
}

#[test]
fn status_failure_is_reported() {
    let (m, first) = sync_repo("/v/notes".to_string(), 1, 1, ctx(false, false));
    let mut answer = |r: &str| -> Event {
        match r {
            "isdir /v/notes/.git" => Event::Flag(true),
            "read /v/notes/.git/info/exclude" => Event::Text(None),
            "git status --porcelain" => failed(128, "boom"),
            _ => ok(""),
        }
    };
    let t = drive(m, first, &mut answer);
    assert_eq!(t.result, Err("notes: git status: boom".to_string()));
    assert_eq!(t.effects[t.effects.len() - 1], "log:ERROR: notes: git status: boom");
}

#[test]
fn dry_run_changes_nothing() {
    let (m, first) = sync_repo("/v/notes".to_string(), 1, 2, ctx(false, true));
    let mut counts = vec!["2\t1\n"];
    let mut answer = |r: &str| -> Event {
        match r {
            "isdir /v/notes/.git" => Event::Flag(true),
            "read /v/notes/.git/info/exclude" => Event::Text(None),
            "git status --porcelain" => ok("?? new.md\n"),
            "git ls-files -- .sync-conflicts" => ok(".sync-conflicts/a.ours\n"),
            "git rev-parse --abbrev-ref @{upstream}" => ok("origin/main\n"),
            "git rev-list --left-right --count HEAD...@{upstream}" => ok(counts.pop().unwrap()),
            "elapsed" => Event::Seconds(1),
            "git fetch --quiet" | "git add -A -- ." | "git pull --no-rebase --quiet" | "git push --quiet" => {
                panic!("a dry run changed something")
            }
            _ => ok(""),
        }
    };
    let t = drive(m, first, &mut answer);
    assert_eq!(t.result, Ok(SyncResult { status: SyncStatus::Bidirectional, elapsed: 1 }));
    for e in &t.effects {
        assert!(!e.starts_with("git:") && !e.starts_with("mkdir:") && !e.starts_with("append:"));
        assert!(!e.starts_with("write:") && !e.starts_with("cleanup:"));
    }
    for r in &t.requests {
        assert!(!r.starts_with("git config --global --add") && !r.starts_with("git rm"));
    }
    assert_eq!(
        t.effects.last().unwrap(),
        "print: [1/2] notes [ DRY ] 1s|        Нет истории синхронизации|        ↳ пропущено|        ↳ Dry-run: commit + pull + push|"
    );
}

#[test]
fn new_branch_is_pushed_upstream() {
    let (m, first) = sync_repo("/v/notes".to_string(), 1, 1, SyncContext { ui: plain_ui(true), offline: false, dry_run: false, unix: false });
    let mut upstream_asked = 0;
    let mut answer = |r: &str| -> Event {
        match r {
            "isdir /v/notes/.git" => Event::Flag(true),
            "read /v/notes/.git/info/exclude" => Event::Text(None),
            "git rev-parse --abbrev-ref @{upstream}" => {
                upstream_asked += 1;
                if upstream_asked <= 3 { failed(128, "no upstream") } else { ok("origin/main\n") }
            }
            "git rev-list --left-right --count HEAD...@{upstream}" => ok("0\t0\n"),
            "git remote" => ok("origin\nbackup\n"),
            "git symbolic-ref --short -q HEAD" => ok("main\n"),
            "git ls-remote --exit-code --heads origin main" => failed(2, ""),
            "git push --quiet -u origin HEAD" => ok(""),
            "elapsed" => Event::Seconds(2),
            _ => ok(""),
        }
    };
    let t = drive(m, first, &mut answer);
    assert_eq!(t.result, Ok(SyncResult { status: SyncStatus::Pushed, elapsed: 2 }));
    assert!(t.effects.contains(&"log:Pushed new branch to origin in notes".to_string()));
    assert_eq!(t.effects.last().unwrap(), "print: [1/1] notes [ UP ] 2s");
}

#[test]
fn sync_info_lines() {
    let e = |d: &str, m: &str| (d.to_string(), m.to_string());
    assert_eq!(build_sync_info(&vec![]), "Нет истории синхронизации");
    assert_eq!(build_sync_info(&vec![e("01/02 10:00", "📱 Mobile sync")]), "📱 01/02 10:00");
    assert_eq!(build_sync_info(&vec![e("01/02 10:00", "vault backup: 3 files")]), "💻 01/02 10:00");
    assert_eq!(
        build_sync_info(&vec![
            e("03/02 08:00", "fix typo"),
            e("02/02 09:00", "from Termux"),
            e("01/02 10:00", "PC edits"),
            e("31/01 10:00", "📱 older"),
        ]),
        "📱 02/02 09:00  💻 01/02 10:00"
    );
    assert_eq!(build_sync_info(&vec![e("", "📱 no date"), e("05/05 05:05", "Mobile")]), "📱 05/05 05:05");
    assert_eq!(build_sync_info(&vec![e("01/01 01:01", "💻 laptop")]), "💻 01/01 01:01");
}

#[test]
fn dry_run_plans() {
    let p = |l: &str, r: bool, a: u32, b: u32| dry_run_plan(l, r, a, b);
    assert_eq!(p(" M a", true, 0, 1), (SyncStatus::Bidirectional, "commit + pull + push".to_string()));
    assert_eq!(p(" M a", true, 0, 0), (SyncStatus::Committed, "commit + push".to_string()));
    assert_eq!(p(" M a", false, 3, 3), (SyncStatus::Committed, "commit".to_string()));
    assert_eq!(p("", true, 2, 1), (SyncStatus::Bidirectional, "pull + push".to_string()));
    assert_eq!(p("\n", true, 0, 1), (SyncStatus::Pulled, "pull".to_string()));
    assert_eq!(p("", true, 1, 0), (SyncStatus::Pushed, "push".to_string()));
    assert_eq!(p("", false, 1, 1), (SyncStatus::UpToDate, "без изменений".to_string()));
    assert_eq!(p("", true, 0, 0), (SyncStatus::UpToDate, "без изменений".to_string()));
}

#[test]
fn final_statuses() {
    assert_eq!(settle_status(SyncStatus::Pushed, true, true, true, true, true), SyncStatus::Conflict);
    assert_eq!(settle_status(SyncStatus::Pushed, true, false, true, true, false), SyncStatus::Bidirectional);
    assert_eq!(settle_status(SyncStatus::UpToDate, false, false, false, false, false), SyncStatus::Offline);
    assert_eq!(settle_status(SyncStatus::Committed, false, true, false, false, false), SyncStatus::Committed);
    assert_eq!(settle_status(SyncStatus::UpToDate, true, false, false, false, false), SyncStatus::UpToDate);
}

#[test]
fn backup_names() {
    assert_eq!(backup_safe_name("dir/sub/note.md"), "dir__sub__note.md");
    assert_eq!(backup_safe_name("odd\nname"), "odd_name");
    assert_eq!(backup_safe_name("plain"), "plain");
}

fn spinner_running(effects: &[String]) -> bool {
    let mut on = false;
    for e in effects {
        if e.starts_with("spin:") {
            on = true;
        } else if e == "stop" {
            on = false;
        }
    }
    on
}

#[test]
fn spinner_is_stopped_when_the_sync_ends() {
    let colour = Ui::new(Theme::Amoled, false, true, true, false, 10);
    let ctx = SyncContext { ui: colour, offline: false, dry_run: false, unix: true };
    let (m, first) = sync_repo("/v/notes".to_string(), 1, 1, ctx);
    let mut counts = vec!["1\t0\n", "0\t1\n", "0\t1\n"];
    let mut diffs = 0;
    let mut answer = |r: &str| -> Event {
        match r {
            "isdir /v/notes/.git" => Event::Flag(true),
            "read /v/notes/.git/info/exclude" => Event::Text(None),
            "git rev-list --left-right --count HEAD...@{upstream}" => ok(counts.pop().unwrap()),
            "git pull --no-rebase --quiet" => failed(1, "CONFLICT"),
            "git diff --name-only --diff-filter=U -z" => {
                diffs += 1;
                if diffs == 4 { ok("") } else { ok("a.md\0") }
            }
            "time" => Event::Text(Some("T".to_string())),
            "git config user.name" => ok("Ann"),
            "git config user.email" => ok("a@b"),
            "elapsed" => Event::Seconds(1),
            _ => ok(""),
        }
    };
    let t = drive(m, first, &mut answer);
    assert_eq!(t.result, Ok(SyncResult { status: SyncStatus::Conflict, elapsed: 1 }));
    let starts: Vec<usize> = t.effects.iter().enumerate().filter(|(_, e)| e.starts_with("spin:")).map(|(i, _)| i).collect();
    assert_eq!(starts.len(), 2);
    assert_eq!(t.effects[starts[0]], "spin:Обработка notes...");
    let resolving = t.effects.iter().position(|e| e.starts_with("git:checkout --ours")).unwrap();
    assert!(!spinner_running(&t.effects[..resolving]));
    assert!(spinner_running(&t.effects[..starts[1] + 1]));
    assert!(!spinner_running(&t.effects));
}
