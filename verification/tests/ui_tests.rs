use obsidian_sync::ui::badge::SyncStatus;
use obsidian_sync::ui::theme::Theme;
use obsidian_sync::ui::{detect_width, detect_width_raw, is_utf8_locale, locale_setting, Ui};

fn plain(silent: bool, compact: bool, width: usize) -> Ui {
    Ui::new(Theme::Amoled, silent, compact, false, false, width)
}

fn strings(v: &[&str]) -> Vec<String> {
    v.iter().map(|s| s.to_string()).collect()
}

#[test]
fn colour_only_on_a_terminal_without_no_color() {
    let u = Ui::new(Theme::Classic, false, true, true, false, 40);
    assert!(u.use_color);
    assert_eq!(u.theme, Theme::Classic);
    assert!(u.compact);
    assert_eq!(u.width, 40);
    let u = Ui::new(Theme::Classic, true, false, false, false, 40);
    assert!(!u.use_color);
    assert_eq!(u.theme, Theme::Plain);
    assert!(u.silent);
    let u = Ui::new(Theme::Classic, false, false, true, true, 40);
    assert!(!u.use_color);
    assert_eq!(u.theme, Theme::Plain);
}

#[test]
fn out_prints_unless_silent() {
    assert_eq!(plain(false, false, 10).out("hello"), strings(&["hello"]));
    assert!(plain(true, false, 10).out("hello").is_empty());
}

#[test]
fn silent_report_prints_nothing() {
    let u = plain(true, false, 10);
    assert!(u.header(&strings(&["silent"]), true).unwrap().is_empty());
    assert!(u.repo_result(1, 1, "a", SyncStatus::UpToDate, "x", 1, None).is_empty());
    assert!(u.summary(1, 0, 0, 2, &vec![], true).is_empty());
}

#[test]
fn separator_width_and_char() {
    assert_eq!(plain(false, false, 5).sep(true), "─────");
    assert_eq!(plain(false, false, 3).sep(false), "---");
    assert_eq!(plain(false, false, 0).sep(true), "");
}

#[test]
fn header_lines() {
    let u = plain(false, false, 5);
    assert_eq!(
        u.header_at(&strings(&["dry-run", "compact"]), "12:00  01/02/2024", true),
        strings(&["", " OBSIDIAN SYNC  12:00  01/02/2024  (dry-run, compact)", "─────"])
    );
    assert_eq!(
        u.header_at(&vec![], "12:00  01/02/2024", false),
        strings(&["", " OBSIDIAN SYNC  12:00  01/02/2024", "-----"])
    );
}

#[test]
fn header_lines_in_colour() {
    let u = Ui::new(Theme::Amoled, false, false, true, false, 2);
    assert_eq!(
        u.header_at(&strings(&["silent"]), "T", true),
        strings(&[
            "",
            " \x1b[1m\x1b[1;96mOBSIDIAN SYNC\x1b[0m  \x1b[2mT\x1b[0m  \x1b[2m(silent)\x1b[0m",
            "──",
        ])
    );
}

#[test]
fn repo_result_full() {
    let u = plain(false, false, 10);
    assert_eq!(
        u.repo_result(2, 5, "notes", SyncStatus::Pulled, "📱 01/02 10:00", 3, None),
        strings(&[
            " [2/5] notes [ DOWN ] 3s",
            "        📱 01/02 10:00",
            "        ↳ получено с remote",
            "",
        ])
    );
}

#[test]
fn repo_result_compact_with_note() {
    let u = plain(false, true, 10);
    assert_eq!(
        u.repo_result(1, 1, "notes", SyncStatus::Skipped, "info", 0, Some("Dry-run: pull")),
        strings(&[" [1/1] notes [ DRY ]", "        ↳ Dry-run: pull"])
    );
}

#[test]
fn repo_result_in_colour() {
    let u = Ui::new(Theme::Amoled, false, true, true, false, 10);
    assert_eq!(
        u.repo_result(1, 2, "vault", SyncStatus::UpToDate, "", 0, None),
        strings(&[" \x1b[2m[1/2]\x1b[0m \x1b[1mvault\x1b[0m \x1b[1;92m[ OK ]\x1b[0m"])
    );
}

#[test]
fn summary_with_errors() {
    let u = plain(false, false, 3);
    assert_eq!(
        u.summary(2, 1, 1, 7, &strings(&["a: boom"]), false),
        strings(&["---", " ИТОГ  OK:2  WARN:1  FAIL:1  TIME:7s", "", " Ошибки:", "  - a: boom", ""])
    );
}

#[test]
fn summary_without_errors() {
    let u = plain(false, false, 2);
    assert_eq!(
        u.summary(0, 0, 0, 0, &vec![], true),
        strings(&["──", " ИТОГ  OK:0  WARN:0  FAIL:0  TIME:0s", ""])
    );
}

#[test]
fn width_is_capped() {
    assert_eq!(detect_width(0), 78);
    assert_eq!(detect_width(1), 1);
    assert_eq!(detect_width(40), 40);
    assert_eq!(detect_width(78), 78);
    assert_eq!(detect_width(200), 78);
}

#[test]
fn terminal_columns() {
    assert_eq!(detect_width_raw(Some("120".to_string()), None), 120);
    assert_eq!(detect_width_raw(Some("abc".to_string()), Some("24 100\n".to_string())), 100);
    assert_eq!(detect_width_raw(Some("0".to_string()), Some("24 0".to_string())), 80);
    assert_eq!(detect_width_raw(None, Some("24".to_string())), 80);
    assert_eq!(detect_width_raw(None, None), 80);
}

#[test]
fn locale_choice() {
    assert_eq!(locale_setting(Some("C".to_string()), Some("x".to_string()), None), "C");
    assert_eq!(locale_setting(None, Some("C.UTF-8".to_string()), Some("en".to_string())), "C.UTF-8");
    assert_eq!(locale_setting(None, None, Some("ru_RU.UTF-8".to_string())), "ru_RU.UTF-8");
    assert_eq!(locale_setting(None, None, None), "");
}

#[test]
fn utf8_locales_in_any_case() {
    assert!(is_utf8_locale("en_US.UTF-8"));
    assert!(is_utf8_locale("ru_RU.utf8"));
    assert!(is_utf8_locale("C.Utf-8"));
    assert!(!is_utf8_locale("C"));
    assert!(!is_utf8_locale(""));
}

#[test]
fn header_carries_the_local_time() {
    let u = plain(false, false, 4);
    let lines = u.header(&strings(&["compact"]), false).unwrap();
    assert_eq!(lines.len(), 3);
    assert_eq!(lines[0], "");
    assert!(lines[1].starts_with(" OBSIDIAN SYNC  "));
    assert!(lines[1].ends_with("  (compact)"));
    assert_eq!(lines[1].len(), " OBSIDIAN SYNC  ".len() + "12:00  01/02/2024".len() + "  (compact)".len());
    assert_eq!(lines[2], "----");
}
