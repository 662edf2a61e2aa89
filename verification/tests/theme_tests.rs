use obsidian_sync::ui::badge::SyncStatus;
use obsidian_sync::ui::theme::Theme;

#[test]
fn theme_names_are_case_insensitive() {
    assert_eq!(Theme::from_str("classic"), Theme::Classic);
    assert_eq!(Theme::from_str("CLASSIC"), Theme::Classic);
    assert_eq!(Theme::from_str("Mono"), Theme::Mono);
    assert_eq!(Theme::from_str("NoNe"), Theme::Plain);
    assert_eq!(Theme::from_str("amoled"), Theme::Amoled);
    assert_eq!(Theme::from_str("AMOLED"), Theme::Amoled);
}

#[test]
fn unknown_theme_names_select_amoled() {
    assert_eq!(Theme::from_str("solarized"), Theme::Amoled);
    assert_eq!(Theme::from_str(""), Theme::Amoled);
    assert_eq!(Theme::from_str(" classic"), Theme::Amoled);
}

#[test]
fn amoled_codes() {
    let t = Theme::Amoled;
    assert_eq!(t.red(), "\x1b[1;91m");
    assert_eq!(t.green(), "\x1b[1;92m");
    assert_eq!(t.yellow(), "\x1b[1;93m");
    assert_eq!(t.blue(), "\x1b[1;94m");
    assert_eq!(t.cyan(), "\x1b[1;96m");
    assert_eq!(t.magenta(), "\x1b[1;95m");
    assert_eq!(t.dim(), "\x1b[2m");
    assert_eq!(t.bold(), "\x1b[1m");
    assert_eq!(t.reset(), "\x1b[0m");
}

#[test]
fn classic_codes() {
    let t = Theme::Classic;
    assert_eq!(t.red(), "\x1b[0;31m");
    assert_eq!(t.green(), "\x1b[0;32m");
    assert_eq!(t.yellow(), "\x1b[1;33m");
    assert_eq!(t.blue(), "\x1b[0;34m");
    assert_eq!(t.cyan(), "\x1b[0;36m");
    assert_eq!(t.magenta(), "\x1b[0;35m");
    assert_eq!(t.dim(), "\x1b[2m");
    assert_eq!(t.bold(), "\x1b[1m");
    assert_eq!(t.reset(), "\x1b[0m");
}

#[test]
fn mono_has_no_colours_but_keeps_styles() {
    let t = Theme::Mono;
    assert_eq!(t.red(), "");
    assert_eq!(t.green(), "");
    assert_eq!(t.yellow(), "");
    assert_eq!(t.blue(), "");
    assert_eq!(t.cyan(), "");
    assert_eq!(t.magenta(), "");
    assert_eq!(t.dim(), "\x1b[2m");
    assert_eq!(t.bold(), "\x1b[1m");
    assert_eq!(t.reset(), "\x1b[0m");
}

#[test]
fn plain_writes_no_escapes() {
    let t = Theme::Plain;
    for s in [t.red(), t.green(), t.yellow(), t.blue(), t.cyan(), t.magenta(), t.dim(), t.bold(), t.reset()] {
        assert_eq!(s, "");
    }
}

#[test]
fn badges_and_descriptions() {
    assert_eq!(SyncStatus::UpToDate.badge(), "[ OK ]");
    assert_eq!(SyncStatus::Pushed.badge(), "[ UP ]");
    assert_eq!(SyncStatus::Pulled.badge(), "[ DOWN ]");
    assert_eq!(SyncStatus::Bidirectional.badge(), "[ SYNC ]");
    assert_eq!(SyncStatus::Committed.badge(), "[ SAVE ]");
    assert_eq!(SyncStatus::Conflict.badge(), "[ CONF ]");
    assert_eq!(SyncStatus::Offline.badge(), "[ OFF ]");
    assert_eq!(SyncStatus::Error.badge(), "[ FAIL ]");
    assert_eq!(SyncStatus::Skipped.badge(), "[ DRY ]");
    assert_eq!(SyncStatus::UpToDate.description(), "всё актуально");
    assert_eq!(SyncStatus::Conflict.description(), "конфликт, оставлена локальная версия");
    assert_eq!(SyncStatus::Offline.description(), "офлайн, remote-операции пропущены");
    assert_eq!(SyncStatus::Skipped.description(), "пропущено");
    assert_eq!(SyncStatus::Error.description(), "ошибка");
}

#[test]
fn badge_colours_follow_the_theme() {
    let t = Theme::Amoled;
    assert_eq!(SyncStatus::UpToDate.color(&t), t.green());
    assert_eq!(SyncStatus::Pushed.color(&t), t.cyan());
    assert_eq!(SyncStatus::Pulled.color(&t), t.blue());
    assert_eq!(SyncStatus::Bidirectional.color(&t), t.magenta());
    assert_eq!(SyncStatus::Committed.color(&t), t.yellow());
    assert_eq!(SyncStatus::Conflict.color(&t), t.yellow());
    assert_eq!(SyncStatus::Offline.color(&t), t.dim());
    assert_eq!(SyncStatus::Error.color(&t), t.red());
    assert_eq!(SyncStatus::Skipped.color(&t), t.dim());
    assert_eq!(SyncStatus::Offline.color(&Theme::Plain), "");
}

#[test]
fn ok_and_warn_never_overlap() {
    let all = [
        SyncStatus::UpToDate,
        SyncStatus::Pushed,
        SyncStatus::Pulled,
        SyncStatus::Bidirectional,
        SyncStatus::Committed,
        SyncStatus::Conflict,
        SyncStatus::Offline,
        SyncStatus::Error,
        SyncStatus::Skipped,
    ];
    let ok: Vec<bool> = all.iter().map(|s| s.is_ok()).collect();
    let warn: Vec<bool> = all.iter().map(|s| s.is_warn()).collect();
    assert_eq!(ok, vec![true, true, true, true, true, false, false, false, false]);
    assert_eq!(warn, vec![false, false, false, false, false, true, true, false, false]);
    for i in 0..all.len() {
        assert!(!(ok[i] && warn[i]));
    }
}

#[test]
fn ascii_names_ignore_case() {
    for name in ["classic", "Classic", "cLaSsIc", "CLASSIC"] {
        assert_eq!(Theme::from_str(name), Theme::Classic);
    }
    assert_eq!(Theme::from_str("MONO"), Theme::from_str("mono"));
}
