use obsidian_sync::cli::{Cli, Commands};
use obsidian_sync::clock::{format_string, is_expired, TimeKind};
use obsidian_sync::git::RunOutcome;
use obsidian_sync::lock::Lock;
use obsidian_sync::logger::Logger;
use obsidian_sync::machine::{Effect, Event, Next, Request};
use obsidian_sync::menu::{self, Dialog, MenuStep, Reply};
use obsidian_sync::network::{endpoints, is_offline};
use obsidian_sync::selfupdate;
use obsidian_sync::status::status_line;
use obsidian_sync::system::{check, version, TargetOs};
use obsidian_sync::ui::theme::Theme;
use obsidian_sync::ui::Ui;
use obsidian_sync::watch::{interval_in_range, parse_interval, run};

fn ui() -> Ui {
    Ui::new(Theme::Amoled, false, false, false, false, 10)
}

fn v(items: &[&str]) -> Vec<String> {
    items.iter().map(|s| s.to_string()).collect()
}

// ------------------------------------------------------------------ watch

#[test]
fn intervals() {
    assert_eq!(parse_interval("15m"), Ok(900));
    assert_eq!(parse_interval("1h"), Ok(3600));
    assert_eq!(parse_interval("30s"), Ok(30));
    assert_eq!(parse_interval("90"), Ok(90));
    assert_eq!(parse_interval(" 2m "), Ok(120));
    assert_eq!(parse_interval("7 s"), Ok(7));
    assert_eq!(parse_interval("+5s"), Ok(5));
}

#[test]
fn interval_errors() {
    assert_eq!(parse_interval(""), Err("пустой интервал".to_string()));
    assert_eq!(parse_interval("   "), Err("пустой интервал".to_string()));
    assert_eq!(parse_interval("0s"), Err("интервал должен быть > 0".to_string()));
    assert_eq!(parse_interval("abc"), Err("не число в интервале: abc".to_string()));
    assert_eq!(parse_interval(" 5x "), Err("не число в интервале: 5x".to_string()));
    assert_eq!(parse_interval("m"), Err("не число в интервале: m".to_string()));
    assert_eq!(parse_interval("-5m"), Err("не число в интервале: -5m".to_string()));
}

#[test]
fn interval_range() {
    assert!(interval_in_range("15m"));
    assert!(interval_in_range("abc"));
    assert!(interval_in_range("18446744073709551615s"));
    assert!(!interval_in_range("18446744073709551615h"));
    assert!(interval_in_range("5124095576030431h"));
    assert!(!interval_in_range("5124095576030432h"));
    assert!(interval_in_range("307445734561825860m"));
    assert!(!interval_in_range("307445734561825861m"));
}

#[test]
fn watch_start_and_iterations() {
    let u = ui();
    let mut w = match run("15m", &u) {
        Ok(w) => w,
        Err(e) => panic!("{}", e),
    };
    assert_eq!(w.watch.secs, 900);
    assert_eq!(w.watch.iter, 0);
    assert_eq!(w.lines, v(&[" Watch ON — интервал 900s, выход: Ctrl+C"]));
    assert_eq!(w.log, "Watch started, interval=900s");
    assert_eq!(w.watch.next_iteration(&u), v(&[" ── итерация 1 ──"]));
    assert_eq!(w.watch.next_iteration(&u), v(&[" ── итерация 2 ──"]));
    assert_eq!(w.watch.iter, 2);
    match run("", &u) {
        Err(e) => assert_eq!(e, "пустой интервал"),
        Ok(_) => panic!(),
    }
}

// -------------------------------------------------------------------- cli

fn cli(root: Option<&str>) -> Cli {
    Cli {
        silent: false,
        compact: false,
        dry_run: false,
        theme: "amoled".to_string(),
        repo: None,
        root: root.map(|s| s.to_string()),
        command: None,
    }
}

#[test]
fn root_folder() {
    assert_eq!(cli(Some("/x")).root(Some("/e".to_string()), true, None), "/x");
    assert_eq!(cli(None).root(Some("/e".to_string()), true, None), "/e");
    assert_eq!(cli(None).root(None, true, Some("/docs".to_string())), "/storage/emulated/0/Documents/Vaults");
    assert_eq!(cli(None).root(None, false, Some("/home/u/Documents".to_string())), "/home/u/Documents/Vaults");
    assert_eq!(cli(None).root(None, false, None), "./Vaults");
}

#[test]
fn log_status_and_lock_paths() {
    let c = cli(None);
    assert_eq!(c.log_path(Some("/l.log".to_string()), Some("/home/u".to_string())), "/l.log");
    assert_eq!(c.log_path(None, Some("/home/u".to_string())), "/home/u/.obsidian_sync.log");
    assert_eq!(c.log_path(None, None), "/tmp/.obsidian_sync.log");
    assert_eq!(c.status_path(Some("/home/u".to_string())), "/home/u/.obsidian_sync_status");
    assert_eq!(c.status_path(None), "/tmp/.obsidian_sync_status");
    assert_eq!(c.lock_dir(Some("/data/usr".to_string()), Some("/home/u".to_string())), "/data/usr/tmp/obsidian_sync.lock.d");
    assert_eq!(c.lock_dir(None, Some("/home/u".to_string())), "/home/u/tmp/obsidian_sync.lock.d");
    assert_eq!(c.lock_dir(None, None), "/tmp/tmp/obsidian_sync.lock.d");
}

// ------------------------------------------------------------------- lock

const DIR: &str = "/h/tmp/obsidian_sync.lock.d";

fn effects(fx: &[Effect]) -> Vec<String> {
    fx.iter()
        .map(|e| match e {
            Effect::CreateDirAll(p) => format!("mkdirs {}", p),
            Effect::WritePid(p) => format!("pid {}", p),
            Effect::RemoveDirAll(p) => format!("rmdir {}", p),
            _ => "other".to_string(),
        })
        .collect()
}

fn asked(n: &Next<Result<Lock, String>>) -> String {
    match n {
        Next::Ask(Request::CreateDir(p)) => format!("mkdir {}", p),
        Next::Ask(Request::ReadFile(p)) => format!("read {}", p),
        Next::Ask(Request::ProcessAlive(pid)) => format!("alive {}", pid),
        Next::Ask(_) => "other".to_string(),
        Next::Finish(Ok(l)) => format!("locked {}", l.dir),
        Next::Finish(Err(e)) => format!("error {}", e),
    }
}

#[test]
fn lock_taken_at_once() {
    let (mut m, s) = Lock::acquire(DIR.to_string());
    assert_eq!(effects(&s.effects), v(&["mkdirs /h/tmp"]));
    assert_eq!(asked(&s.next), format!("mkdir {}", DIR));
    let s = m.resume(Event::Flag(true));
    assert_eq!(effects(&s.effects), v(&[&format!("pid {}/pid", DIR)]));
    assert_eq!(asked(&s.next), format!("locked {}", DIR));
}

#[test]
fn live_holder_keeps_the_lock() {
    let (mut m, _) = Lock::acquire(DIR.to_string());
    let s = m.resume(Event::Flag(false));
    assert_eq!(asked(&s.next), format!("read {}/pid", DIR));
    let s = m.resume(Event::Text(Some(" 4242\n".to_string())));
    assert_eq!(asked(&s.next), "alive 4242");
    let s = m.resume(Event::Flag(true));
    assert!(s.effects.is_empty());
    assert_eq!(asked(&s.next), "error Sync already running (PID 4242)");
}

#[test]
fn stale_lock_is_taken_over() {
    let (mut m, _) = Lock::acquire(DIR.to_string());
    m.resume(Event::Flag(false));
    m.resume(Event::Text(Some("4242".to_string())));
    let s = m.resume(Event::Flag(false));
    assert_eq!(effects(&s.effects), v(&[&format!("rmdir {}", DIR)]));
    assert_eq!(asked(&s.next), format!("mkdir {}", DIR));
    let s = m.resume(Event::Flag(true));
    assert_eq!(asked(&s.next), format!("locked {}", DIR));

    let (mut m, _) = Lock::acquire(DIR.to_string());
    m.resume(Event::Flag(false));
    let s = m.resume(Event::Text(None));
    assert_eq!(effects(&s.effects), v(&[&format!("rmdir {}", DIR)]));
    let s = m.resume(Event::Flag(false));
    assert_eq!(asked(&s.next), format!("error Cannot acquire lock: {}", DIR));
}

// ------------------------------------------------------------------- menu

fn finish(s: MenuStep) -> Option<Commands> {
    match s {
        MenuStep::Finish(c) => c,
        MenuStep::Ask(_) => panic!("expected the end of the menu"),
    }
}

fn name(c: Option<Commands>) -> String {
    match c {
        None => "quit".to_string(),
        Some(Commands::Sync) => "sync".to_string(),
        Some(Commands::Push) => "push".to_string(),
        Some(Commands::Pull) => "pull".to_string(),
        Some(Commands::Commit) => "commit".to_string(),
        Some(Commands::Conflicts) => "conflicts".to_string(),
        Some(Commands::Status) => "status".to_string(),
        Some(Commands::Watch { interval }) => format!("watch {}", interval),
        Some(Commands::Update) => "update".to_string(),
        Some(Commands::GitCheck { upgrade }) => format!("git-check {}", upgrade),
    }
}

#[test]
fn menu_main_list() {
    let (_, s) = menu::run();
    match s {
        MenuStep::Ask(Dialog::Select { prompt, items, initial }) => {
            assert_eq!(prompt, "OBSIDIAN SYNC");
            assert_eq!(items.len(), 10);
            assert_eq!(items[0], "Sync — полная синхронизация");
            assert_eq!(items[9], "Выход");
            assert_eq!(initial, 0);
        }
        _ => panic!(),
    }
    let picks = [(0, "sync"), (1, "push"), (2, "pull"), (3, "commit"), (4, "conflicts"), (5, "status"), (7, "update"), (9, "quit")];
    for (i, want) in picks {
        let (mut m, _) = menu::run();
        assert_eq!(name(finish(m.resume(Reply::Selected(Some(i))))), want);
    }
    let (mut m, _) = menu::run();
    assert_eq!(name(finish(m.resume(Reply::Selected(None)))), "quit");
    let (mut m, _) = menu::run();
    assert_eq!(name(finish(m.resume(Reply::Failed))), "quit");
}

#[test]
fn menu_watch_asks_for_an_interval() {
    let (mut m, _) = menu::run();
    match m.resume(Reply::Selected(Some(6))) {
        MenuStep::Ask(Dialog::Confirm { prompt, default }) => {
            assert_eq!(prompt, "Запустить фон (цикл sync)?");
            assert!(default);
        }
        _ => panic!(),
    }
    match m.resume(Reply::Confirmed(false)) {
        MenuStep::Ask(Dialog::Select { .. }) => {}
        _ => panic!("declining goes back to the list"),
    }
    m.resume(Reply::Selected(Some(6)));
    match m.resume(Reply::Confirmed(true)) {
        MenuStep::Ask(Dialog::Input { prompt, default }) => {
            assert_eq!(prompt, "Интервал (напр. 15m / 1h / 30s)");
            assert_eq!(default, "15m");
        }
        _ => panic!(),
    }
    assert_eq!(name(finish(m.resume(Reply::Entered("30s".to_string())))), "watch 30s");
    let (mut m, _) = menu::run();
    m.resume(Reply::Selected(Some(6)));
    m.resume(Reply::Confirmed(true));
    assert_eq!(name(finish(m.resume(Reply::Failed))), "watch 15m");
}

#[test]
fn menu_git_upgrade() {
    let (mut m, _) = menu::run();
    match m.resume(Reply::Selected(Some(8))) {
        MenuStep::Ask(Dialog::Confirm { prompt, default }) => {
            assert_eq!(prompt, "Обновить системный Git?");
            assert!(!default);
        }
        _ => panic!(),
    }
    assert_eq!(name(finish(m.resume(Reply::Confirmed(true)))), "git-check true");
    let (mut m, _) = menu::run();
    m.resume(Reply::Selected(Some(8)));
    assert_eq!(name(finish(m.resume(Reply::Failed))), "git-check false");
    let (mut m, _) = menu::run();
    match m.resume(Reply::Selected(Some(12))) {
        MenuStep::Ask(Dialog::Select { .. }) => {}
        _ => panic!("an unknown position shows the list again"),
    }
}

// ----------------------------------------------------------------- system

fn exited(code: Option<i32>, out: &str) -> RunOutcome {
    RunOutcome::Exited { code, stdout: out.as_bytes().to_vec(), stderr: vec![] }
}

fn prints(fx: &[Effect]) -> Vec<String> {
    let mut out = vec![];
    for e in fx {
        if let Effect::Print(lines) = e {
            out.extend(lines.iter().cloned());
        }
    }
    out
}

fn request(n: &Next<Result<(), String>>) -> String {
    match n {
        Next::Ask(Request::Program { program, args }) => format!("run {} {}", program, args.join(" ")),
        Next::Ask(Request::Interactive { program, args }) => format!("tty {} {}", program, args.join(" ")),
        Next::Ask(_) => "other".to_string(),
        Next::Finish(Ok(())) => "ok".to_string(),
        Next::Finish(Err(e)) => format!("error {}", e),
    }
}

#[test]
fn git_version() {
    assert_eq!(version(&exited(Some(0), "git version 2.43.0\n")), Some("git version 2.43.0".to_string()));
    assert_eq!(version(&exited(Some(1), "x")), None);
    assert_eq!(version(&RunOutcome::SpawnFailed("no git".to_string())), None);
}

#[test]
fn git_check_without_upgrade() {
    let (mut m, s) = check(&ui(), false, TargetOs::Other);
    assert_eq!(request(&s.next), "run git --version");
    let s = m.resume(Event::Ran(exited(Some(0), "git version 2.43.0\n")));
    assert_eq!(prints(&s.effects), v(&[" Git: git version 2.43.0"]));
    assert_eq!(request(&s.next), "ok");
    let (mut m, _) = check(&ui(), false, TargetOs::Other);
    let s = m.resume(Event::Ran(RunOutcome::SpawnFailed("none".to_string())));
    assert_eq!(prints(&s.effects), v(&[" Git не найден в PATH"]));
    assert_eq!(request(&s.next), "error git not found");
}

#[test]
fn git_upgrade_on_android_and_windows() {
    let (mut m, _) = check(&ui(), true, TargetOs::Android);
    let s = m.resume(Event::Ran(exited(Some(0), "git version 2.40.0")));
    assert_eq!(prints(&s.effects), v(&[" Git: git version 2.40.0", " Обновление: pkg upgrade git -y"]));
    assert_eq!(request(&s.next), "tty pkg upgrade git -y");
    let s = m.resume(Event::Ran(exited(Some(0), "")));
    assert_eq!(prints(&s.effects), v(&[" Git обновлён"]));
    assert_eq!(request(&s.next), "ok");

    let (mut m, _) = check(&ui(), true, TargetOs::Windows);
    let s = m.resume(Event::Ran(exited(Some(0), "git version 2.40.0")));
    assert_eq!(request(&s.next), "tty winget upgrade --id Git.Git -e");
    let s = m.resume(Event::Ran(exited(Some(3), "")));
    assert_eq!(request(&s.next), "error winget завершился с кодом Some(3)");
}

#[test]
fn git_upgrade_probes_package_managers() {
    let (mut m, _) = check(&ui(), true, TargetOs::Other);
    let s = m.resume(Event::Ran(exited(Some(0), "git version 2.40.0")));
    assert_eq!(request(&s.next), "run which pacman");
    let s = m.resume(Event::Ran(exited(Some(1), "")));
    assert_eq!(request(&s.next), "run which apt");
    let s = m.resume(Event::Ran(exited(Some(0), "/usr/bin/apt")));
    assert_eq!(prints(&s.effects), v(&[" Обновление: apt install -y --only-upgrade git"]));
    assert_eq!(request(&s.next), "tty apt install -y --only-upgrade git");
    let s = m.resume(Event::Ran(RunOutcome::SpawnFailed("denied".to_string())));
    assert_eq!(request(&s.next), "error запуск apt: denied");

    let (mut m, _) = check(&ui(), true, TargetOs::Other);
    m.resume(Event::Ran(exited(Some(0), "git version 2.40.0")));
    for _ in 0..4 {
        m.resume(Event::Ran(exited(Some(1), "")));
    }
    let s = m.resume(Event::Ran(exited(Some(1), "")));
    assert_eq!(prints(&s.effects), v(&[" Не определил пакетный менеджер — обнови Git вручную"]));
    assert_eq!(request(&s.next), "ok");

    let (mut m, _) = check(&ui(), true, TargetOs::Android);
    m.resume(Event::Ran(exited(Some(0), "v")));
    let s = m.resume(Event::Ran(exited(None, "")));
    assert_eq!(request(&s.next), "error pkg завершился с кодом None");
}

// ------------------------------------------------- self-update, log, status

#[test]
fn self_update_on_android() {
    let (lines, r) = selfupdate::run(&ui());
    assert_eq!(
        lines,
        v(&[" На Termux/Android автообновление отключено.", " Скачай архив из GitHub Releases и замени бинарник вручную."])
    );
    assert_eq!(r, Err("self-update недоступен на android".to_string()));
    let quiet = Ui::new(Theme::Amoled, true, false, false, false, 10);
    assert!(selfupdate::run(&quiet).0.is_empty());
}

#[test]
fn self_update_messages() {
    assert_eq!(selfupdate::current_version_line(&ui(), "4.1.0"), v(&[" Текущая версия: 4.1.0"]));
    assert_eq!(selfupdate::updated_line(&ui(), "4.2.0"), v(&[" Версия после обновления: 4.2.0"]));
    assert_eq!(selfupdate::build_error("bad repo"), "self_update build: bad repo");
    assert_eq!(selfupdate::update_error("offline"), "self_update update: offline");
}

#[test]
fn log_lines_and_rotation() {
    assert_eq!(Logger::line_at("2024-01-01 10:00:00", "=== Sync started ==="), "[2024-01-01 10:00:00] === Sync started ===\n");
    let l = Logger::new("/home/u/.obsidian_sync.log".to_string());
    let p = l.prepare(Some(2_000_000));
    assert_eq!(p.create_dir, Some("/home/u".to_string()));
    assert_eq!(p.rotate_to, Some("/home/u/.obsidian_sync.log.1".to_string()));
    assert_eq!(l.prepare(Some(1_048_576)).rotate_to, None);
    assert_eq!(l.prepare(None).rotate_to, None);
    let line = l.log("hello").unwrap();
    assert!(line.starts_with('['));
    assert!(line.ends_with("] hello\n"));
    assert_eq!(line.len(), "[2024-01-01 10:00:00] hello\n".len());
}

#[test]
fn status_file() {
    assert_eq!(status_line(1700000000, 3, 1, 0, 4, 12), "last_sync=1700000000,ok=3,warn=1,err=0,total=4,duration=12\n");
    assert_eq!(status_line(-5, 0, 0, 0, 0, 0), "last_sync=-5,ok=0,warn=0,err=0,total=0,duration=0\n");
    let f = obsidian_sync::status::write("/home/u/.obsidian_sync_status", 1, 0, 0, 1, 2).unwrap();
    assert_eq!(f.target, "/home/u/.obsidian_sync_status");
    assert_eq!(f.tmp, "/home/u/.obsidian_sync_status.tmp");
    assert!(f.content.starts_with("last_sync="));
    assert!(f.content.ends_with(",ok=1,warn=0,err=0,total=1,duration=2\n"));
}

#[test]
fn clock_formats_and_expiry() {
    assert_eq!(format_string(TimeKind::Commit), "%Y-%m-%d %H:%M");
    assert_eq!(format_string(TimeKind::LogLine), "%Y-%m-%d %H:%M:%S");
    assert_eq!(format_string(TimeKind::Header), "%H:%M  %d/%m/%Y");
    assert_eq!(format_string(TimeKind::Backup), "%Y%m%d_%H%M%S");
    let t = obsidian_sync::clock::local_time(TimeKind::Backup).unwrap();
    assert_eq!(t.len(), "20240101_120000".len());
    assert_eq!(t.as_bytes()[8], b'_');
    assert!(obsidian_sync::clock::unix_seconds().unwrap() > 1_600_000_000);
    let n = obsidian_sync::clock::unix_nanos().unwrap();
    assert!(n > 1_600_000_000_000_000_000);
    let day: i128 = 86_400 * 1_000_000_000;
    let now: i128 = 100 * day;
    assert!(is_expired(now - 31 * day, now));
    assert!(!is_expired(now - 30 * day, now));
    assert!(!is_expired(now - day, now));
    assert!(!is_expired(i128::MIN, i128::MIN + 5));
    assert!(is_expired(0, i128::MAX));
}

#[test]
fn network_probes() {
    assert_eq!(endpoints(), v(&["https://connectivitycheck.gstatic.com/generate_204", "https://github.com"]));
    assert!(is_offline(&vec![false, false]));
    assert!(is_offline(&vec![]));
    assert!(!is_offline(&vec![false, true]));
    assert!(!is_offline(&vec![true]));
}

#[test]
fn watch_rounds_sync_every_repository_then_pause() {
    let u = ui();
    let mut w = match run("30s", &u) {
        Ok(w) => w.watch,
        Err(e) => panic!("{}", e),
    };
    let repos = v(&["/v/a", "/v/b", "/v/c"]);
    let r = w.next_round(&u, &repos);
    assert_eq!(r.lines, v(&[" ── итерация 1 ──"]));
    assert_eq!(
        r.syncs,
        vec![("/v/a".to_string(), 1, 3), ("/v/b".to_string(), 2, 3), ("/v/c".to_string(), 3, 3)]
    );
    assert_eq!(r.pause_secs, 30);
    let r = w.next_round(&u, &vec![]);
    assert_eq!(r.lines, v(&[" ── итерация 2 ──"]));
    assert!(r.syncs.is_empty());
    assert_eq!(w.iter, 2);
}
