//! The interactive menu: which subcommand the user picks.
use vstd::prelude::*;
use crate::cli::{Commands, CommandsView};
use crate::text::{owned, views};

verus! {

/// A question put to the user.
pub enum Dialog {
    /// Pick one of `items`; `initial` is highlighted first.
    Select { prompt: String, items: Vec<String>, initial: usize },
    /// Yes or no.
    Confirm { prompt: String, default: bool },
    /// A line of text.
    Input { prompt: String, default: String },
}

/// The user's answer; `Failed` when the terminal could not ask.
pub enum Reply {
    /// The index picked, or `None` when the menu was left.
    Selected(Option<usize>),
    Confirmed(bool),
    Entered(String),
    Failed,
}

pub enum DialogView {
    Select { prompt: Seq<char>, items: Seq<Seq<char>>, initial: usize },
    Confirm { prompt: Seq<char>, default: bool },
    Input { prompt: Seq<char>, default: Seq<char> },
}

pub enum ReplyView {
    Selected(Option<usize>),
    Confirmed(bool),
    Entered(Seq<char>),
    Failed,
}

impl View for Dialog {
    type V = DialogView;

    open spec fn view(&self) -> DialogView {
        match self {
            Dialog::Select { prompt, items, initial } => DialogView::Select {
                prompt: prompt@,
                items: views(items@),
                initial: *initial,
            },
            Dialog::Confirm { prompt, default } => DialogView::Confirm {
                prompt: prompt@,
                default: *default,
            },
            Dialog::Input { prompt, default } => DialogView::Input {
                prompt: prompt@,
                default: default@,
            },
        }
    }
}

impl View for Reply {
    type V = ReplyView;

    open spec fn view(&self) -> ReplyView {
        match self {
            Reply::Selected(o) => ReplyView::Selected(*o),
            Reply::Confirmed(b) => ReplyView::Confirmed(*b),
            Reply::Entered(s) => ReplyView::Entered(s@),
            Reply::Failed => ReplyView::Failed,
        }
    }
}

/// What the menu does next: ask, or end with the chosen subcommand (`None`
/// to quit).
pub enum MenuStep {
    Ask(Dialog),
    Finish(Option<Commands>),
}

pub enum MenuStepView {
    Ask(DialogView),
    Finish(Option<CommandsView>),
}

impl View for MenuStep {
    type V = MenuStepView;

    open spec fn view(&self) -> MenuStepView {
        match self {
            MenuStep::Ask(d) => MenuStepView::Ask(d@),
            MenuStep::Finish(Some(c)) => MenuStepView::Finish(Some(c@)),
            MenuStep::Finish(None) => MenuStepView::Finish(None),
        }
    }
}

#[derive(Debug, Clone, Copy, PartialEq, Eq, Structural)]
pub enum MenuPhase {
    Main,
    WatchConfirm,
    WatchInterval,
    Upgrade,
    Done,
}

pub open spec fn items_spec() -> Seq<Seq<char>> {
    seq![
        "Sync — полная синхронизация"@,
        "Push — отправить на remote"@,
        "Pull — получить с remote"@,
        "Commit — сохранить локальные изменения"@,
        "Conflicts — разобрать конфликты"@,
        "Status — состояние репозиториев"@,
        "Watch — фон (цикл по интервалу)"@,
        "Update — проверить/обновить утилиту"@,
        "Git — проверить/обновить Git"@,
        "Выход"@,
    ]
}

pub open spec fn main_dialog() -> DialogView {
    DialogView::Select { prompt: "OBSIDIAN SYNC"@, items: items_spec(), initial: 0 }
}

pub open spec fn watch_confirm_dialog() -> DialogView {
    DialogView::Confirm { prompt: "Запустить фон (цикл sync)?"@, default: true }
}

pub open spec fn interval_dialog() -> DialogView {
    DialogView::Input { prompt: "Интервал (напр. 15m / 1h / 30s)"@, default: "15m"@ }
}

pub open spec fn upgrade_dialog() -> DialogView {
    DialogView::Confirm { prompt: "Обновить системный Git?"@, default: false }
}

/// The subcommand each menu position picks directly.
pub open spec fn picked(i: usize) -> Option<CommandsView> {
    if i == 0 {
        Some(CommandsView::Sync)
    } else if i == 1 {
        Some(CommandsView::Push)
    } else if i == 2 {
        Some(CommandsView::Pull)
    } else if i == 3 {
        Some(CommandsView::Commit)
    } else if i == 4 {
        Some(CommandsView::Conflicts)
    } else if i == 5 {
        Some(CommandsView::Status)
    } else if i == 7 {
        Some(CommandsView::Update)
    } else {
        None
    }
}

/// One step of the menu, given the reply to the question asked.
pub open spec fn menu_next(p: MenuPhase, r: ReplyView) -> (MenuPhase, MenuStepView) {
    match p {
        MenuPhase::Main => match r {
            ReplyView::Selected(Some(i)) => if i == 6 {
                (MenuPhase::WatchConfirm, MenuStepView::Ask(watch_confirm_dialog()))
            } else if i == 8 {
                (MenuPhase::Upgrade, MenuStepView::Ask(upgrade_dialog()))
            } else if i == 9 {
                (MenuPhase::Done, MenuStepView::Finish(None))
            } else if i < 9 {
                (MenuPhase::Done, MenuStepView::Finish(picked(i)))
            } else {
                (MenuPhase::Main, MenuStepView::Ask(main_dialog()))
            },
            _ => (MenuPhase::Done, MenuStepView::Finish(None)),
        },
        MenuPhase::WatchConfirm => match r {
            ReplyView::Confirmed(true) => (MenuPhase::WatchInterval, MenuStepView::Ask(interval_dialog())),
            _ => (MenuPhase::Main, MenuStepView::Ask(main_dialog())),
        },
        MenuPhase::WatchInterval => (
            MenuPhase::Done,
            MenuStepView::Finish(
                Some(
                    CommandsView::Watch {
                        interval: match r {
                            ReplyView::Entered(s) => s,
                            _ => "15m"@,
                        },
                    },
                ),
            ),
        ),
        MenuPhase::Upgrade => (
            MenuPhase::Done,
            MenuStepView::Finish(
                Some(
                    CommandsView::GitCheck {
                        upgrade: match r {
                            ReplyView::Confirmed(b) => b,
                            _ => false,
                        },
                    },
                ),
            ),
        ),
        MenuPhase::Done => (MenuPhase::Done, MenuStepView::Finish(None)),
    }
}

fn items() -> (r: Vec<String>)
    ensures
        views(r@) == items_spec(),
{
    let mut v: Vec<String> = Vec::new();
    v.push(owned("Sync — полная синхронизация"));
    v.push(owned("Push — отправить на remote"));
    v.push(owned("Pull — получить с remote"));
    v.push(owned("Commit — сохранить локальные изменения"));
    v.push(owned("Conflicts — разобрать конфликты"));
    v.push(owned("Status — состояние репозиториев"));
    v.push(owned("Watch — фон (цикл по интервалу)"));
    v.push(owned("Update — проверить/обновить утилиту"));
    v.push(owned("Git — проверить/обновить Git"));
    v.push(owned("Выход"));
    assert(views(v@) =~= items_spec());
    v
}

fn main_menu() -> (d: Dialog)
    ensures
        d@ == main_dialog(),
{
    Dialog::Select { prompt: owned("OBSIDIAN SYNC"), items: items(), initial: 0 }
}

fn pick(i: usize) -> (r: Option<Commands>)
    ensures
        match r {
            Some(c) => picked(i) == Some(c@),
            None => picked(i) is None,
        },
{
    if i == 0 {
        Some(Commands::Sync)
    } else if i == 1 {
        Some(Commands::Push)
    } else if i == 2 {
        Some(Commands::Pull)
    } else if i == 3 {
        Some(Commands::Commit)
    } else if i == 4 {
        Some(Commands::Conflicts)
    } else if i == 5 {
        Some(Commands::Status)
    } else if i == 7 {
        Some(Commands::Update)
    } else {
        None
    }
}

/// The menu as a step machine.
pub struct Menu {
    pub phase: MenuPhase,
}

/// Opens the menu: the first question is the main list.
pub fn run() -> (r: (Menu, MenuStep))
    ensures
        r.0.phase == MenuPhase::Main,
        r.1@ == MenuStepView::Ask(main_dialog()),
{
    (Menu { phase: MenuPhase::Main }, MenuStep::Ask(main_menu()))
}

impl Menu {
    pub fn resume(&mut self, r: Reply) -> (s: MenuStep)
        ensures
            (final(self).phase, s@) == menu_next(old(self).phase, r@),
    {
        match self.phase {
            MenuPhase::Main => match r {
                Reply::Selected(Some(i)) => {
                    if i == 6 {
                        self.phase = MenuPhase::WatchConfirm;
                        MenuStep::Ask(Dialog::Confirm { prompt: owned("Запустить фон (цикл sync)?"), default: true })
                    } else if i == 8 {
                        self.phase = MenuPhase::Upgrade;
                        MenuStep::Ask(Dialog::Confirm { prompt: owned("Обновить системный Git?"), default: false })
                    } else if i == 9 {
                        self.phase = MenuPhase::Done;
                        MenuStep::Finish(None)
                    } else if i < 9 {
                        self.phase = MenuPhase::Done;
                        MenuStep::Finish(pick(i))
                    } else {
                        MenuStep::Ask(main_menu())
                    }
                },
                _ => {
                    self.phase = MenuPhase::Done;
                    MenuStep::Finish(None)
                },
            },
            MenuPhase::WatchConfirm => match r {
                Reply::Confirmed(true) => {
                    self.phase = MenuPhase::WatchInterval;
                    MenuStep::Ask(Dialog::Input { prompt: owned("Интервал (напр. 15m / 1h / 30s)"), default: owned("15m") })
                },
                _ => {
                    self.phase = MenuPhase::Main;
                    MenuStep::Ask(main_menu())
                },
            },
            MenuPhase::WatchInterval => {
                self.phase = MenuPhase::Done;
                let interval = match r {
                    Reply::Entered(s) => s,
                    _ => owned("15m"),
                };
                MenuStep::Finish(Some(Commands::Watch { interval }))
            },
            MenuPhase::Upgrade => {
                self.phase = MenuPhase::Done;
                let upgrade = match r {
                    Reply::Confirmed(b) => b,
                    _ => false,
                };
                MenuStep::Finish(Some(Commands::GitCheck { upgrade }))
            },
            MenuPhase::Done => MenuStep::Finish(None),
        }
    }
}

} // verus!
