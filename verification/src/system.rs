//! The system's git: its version, and the package manager that updates it.
use vstd::prelude::*;
use crate::git::{OutcomeView, RunOutcome, lossy_text, utf8_lossy};
use crate::machine::{
    Effect, EffectView, Event, EventView, Next, NextView, Request, RequestView, Step, StepView,
    add_effect, effect_views, no_effects, one_effect,
};
use crate::sync_machine::as_outcome;
use crate::text::{
    dec, dec_string, i64_string, join, join_strings, owned, sdec, strings1, strings2, strings3,
    strings4, strings5, trim, trim_str, views,
};
use crate::ui::{Ui, shown};
use crate::ui::theme::{cyan_code, green_code, red_code, reset_code, yellow_code};

verus! {

/// The system the tool runs on, as far as updating git is concerned.
#[derive(Debug, Clone, Copy, PartialEq, Eq, Structural)]
pub enum TargetOs {
    Android,
    Windows,
    Other,
}

/// The git version: the trimmed output of `git --version` when it succeeded.
pub open spec fn version_of(o: OutcomeView) -> Option<Seq<char>> {
    match o {
        OutcomeView::Exited { code, stdout, .. } => if code == Some(0i32) {
            Some(trim(utf8_lossy(stdout)))
        } else {
            None
        },
        OutcomeView::SpawnFailed(_) => None,
    }
}

/// The version from the outcome of `git --version`.
pub fn version(outcome: &RunOutcome) -> (r: Option<String>)
    ensures
        match r {
            Some(v) => version_of(outcome@) == Some(v@),
            None => version_of(outcome@) is None,
        },
{
    match outcome {
        RunOutcome::Exited { code, stdout, .. } => {
            let ok = match code {
                Some(c) => *c == 0,
                None => false,
            };
            if ok {
                let t = lossy_text(stdout);
                Some(trim_str(t.as_str()))
            } else {
                None
            }
        },
        RunOutcome::SpawnFailed(_) => None,
    }
}

/// The package managers tried on other systems, in order, with the
/// arguments that update git.
pub open spec fn managers() -> Seq<(Seq<char>, Seq<Seq<char>>)> {
    seq![
        ("pacman"@, seq!["-Syu"@, "--noconfirm"@, "git"@]),
        ("apt"@, seq!["install"@, "-y"@, "--only-upgrade"@, "git"@]),
        ("dnf"@, seq!["upgrade"@, "-y"@, "git"@]),
        ("zypper"@, seq!["update"@, "-y"@, "git"@]),
        ("apk"@, seq!["upgrade"@, "git"@]),
    ]
}

pub open spec fn fixed_upgrade(os: TargetOs) -> Option<(Seq<char>, Seq<Seq<char>>)> {
    match os {
        TargetOs::Android => Some(("pkg"@, seq!["upgrade"@, "git"@, "-y"@])),
        TargetOs::Windows => Some(("winget"@, seq!["upgrade"@, "--id"@, "Git.Git"@, "-e"@])),
        TargetOs::Other => None,
    }
}

fn manager(i: usize) -> (r: (String, Vec<String>))
    requires
        i < 5,
    ensures
        (r.0@, views(r.1@)) == managers()[i as int],
{
    if i == 0 {
        (owned("pacman"), strings3("-Syu", "--noconfirm", "git"))
    } else if i == 1 {
        (owned("apt"), strings4("install", "-y", "--only-upgrade", "git"))
    } else if i == 2 {
        (owned("dnf"), strings3("upgrade", "-y", "git"))
    } else if i == 3 {
        (owned("zypper"), strings3("update", "-y", "git"))
    } else {
        (owned("apk"), strings2("upgrade", "git"))
    }
}

#[derive(Debug, Clone, Copy, PartialEq, Eq, Structural)]
pub enum CheckPhase {
    Version,
    Probe(usize),
    Upgrade,
    Done,
}

/// `git-check`, as a step machine.
pub struct GitCheck {
    pub ui: Ui,
    pub upgrade: bool,
    pub os: TargetOs,
    pub manager: String,
    pub phase: CheckPhase,
}

pub open spec fn unit_out(r: Result<(), String>) -> Result<(), Seq<char>> {
    match r {
        Ok(()) => Ok(()),
        Err(e) => Err(e@),
    }
}

pub open spec fn check_step_view(s: Step<Result<(), String>>) -> StepView<Result<(), Seq<char>>> {
    StepView {
        effects: effect_views(s.effects@),
        next: match s.next {
            Next::Ask(r) => NextView::Ask(r@),
            Next::Finish(x) => NextView::Finish(unit_out(x)),
        },
    }
}

pub type CheckTrans = (CheckPhase, Seq<char>, StepView<Result<(), Seq<char>>>);

pub open spec fn print(ui: Ui, line: Seq<char>) -> EffectView {
    EffectView::Print(shown(ui, seq![line]))
}

/// Announces the update and runs the manager with the terminal attached.
pub open spec fn announce(ui: Ui, mgr: Seq<char>, args: Seq<Seq<char>>) -> CheckTrans {
    let t = ui.theme;
    (
        CheckPhase::Upgrade,
        mgr,
        StepView {
            effects: seq![print(ui, " "@ + cyan_code(t) + "Обновление: "@ + mgr + " "@ + join(args, " "@) + reset_code(t))],
            next: NextView::Ask(RequestView::Interactive { program: mgr, args }),
        },
    )
}

/// `Option<i32>` as `{:?}` writes it.
pub open spec fn debug_code(code: Option<i32>) -> Seq<char> {
    match code {
        Some(c) => "Some("@ + sdec(c as int) + ")"@,
        None => "None"@,
    }
}

pub open spec fn which_request(i: int) -> RequestView {
    RequestView::Program { program: "which"@, args: seq![managers()[i].0] }
}

/// One step of `git-check`, given the answer to its request; `mgr` is the
/// package manager chosen so far.
pub open spec fn check_next(ui: Ui, upgrade: bool, os: TargetOs, mgr: Seq<char>, p: CheckPhase, e: EventView) -> CheckTrans {
    let t = ui.theme;
    let o = as_outcome(e);
    match p {
        CheckPhase::Version => match version_of(o) {
            None => (
                CheckPhase::Done,
                mgr,
                StepView {
                    effects: seq![print(ui, " "@ + red_code(t) + "Git не найден в PATH"@ + reset_code(t))],
                    next: NextView::Finish(Err("git not found"@)),
                },
            ),
            Some(v) => {
                let shown_version = print(ui, " "@ + green_code(t) + "Git: "@ + v + reset_code(t));
                if !upgrade {
                    (CheckPhase::Done, mgr, StepView { effects: seq![shown_version], next: NextView::Finish(Ok(())) })
                } else {
                    match fixed_upgrade(os) {
                        Some((m, args)) => {
                            let a = announce(ui, m, args);
                            (a.0, a.1, StepView { effects: seq![shown_version] + a.2.effects, next: a.2.next })
                        },
                        None => (
                            CheckPhase::Probe(0),
                            mgr,
                            StepView { effects: seq![shown_version], next: NextView::Ask(which_request(0)) },
                        ),
                    }
                }
            },
        },
        CheckPhase::Probe(i) => if i < 5 && (o matches OutcomeView::Exited { code, .. } && code == Some(0i32)) {
            announce(ui, managers()[i as int].0, managers()[i as int].1)
        } else if i + 1 < 5 {
            (CheckPhase::Probe((i + 1) as usize), mgr, StepView { effects: seq![], next: NextView::Ask(which_request(i + 1)) })
        } else {
            (
                CheckPhase::Done,
                mgr,
                StepView {
                    effects: seq![print(ui, " "@ + yellow_code(t) + "Не определил пакетный менеджер — обнови Git вручную"@ + reset_code(t))],
                    next: NextView::Finish(Ok(())),
                },
            )
        },
        CheckPhase::Upgrade => match o {
            OutcomeView::SpawnFailed(err) => (
                CheckPhase::Done,
                mgr,
                StepView { effects: seq![], next: NextView::Finish(Err("запуск "@ + mgr + ": "@ + err)) },
            ),
            OutcomeView::Exited { code, .. } => if code == Some(0i32) {
                (
                    CheckPhase::Done,
                    mgr,
                    StepView {
                        effects: seq![print(ui, " "@ + green_code(t) + "Git обновлён"@ + reset_code(t))],
                        next: NextView::Finish(Ok(())),
                    },
                )
            } else {
                (
                    CheckPhase::Done,
                    mgr,
                    StepView {
                        effects: seq![],
                        next: NextView::Finish(Err(mgr + " завершился с кодом "@ + debug_code(code))),
                    },
                )
            },
        },
        CheckPhase::Done => (CheckPhase::Done, mgr, StepView { effects: seq![], next: NextView::Finish(Ok(())) }),
    }
}

fn outcome_in(e: Event) -> (o: RunOutcome)
    ensures
        o@ == as_outcome(e@),
{
    match e {
        Event::Ran(o) => o,
        _ => RunOutcome::SpawnFailed(String::new()),
    }
}

fn print_line(ui: &Ui, line: String) -> (e: Effect)
    ensures
        e@ == print(*ui, line@),
{
    Effect::Print(ui.out(line.as_str()))
}

fn colored(color: &str, text: &str, reset: &str) -> (r: String)
    ensures
        r@ == " "@ + color@ + text@ + reset@,
{
    let mut r = owned(" ");
    r.append(color);
    r.append(text);
    r.append(reset);
    r
}

fn which(i: usize) -> (r: Request)
    requires
        i < 5,
    ensures
        r@ == which_request(i as int),
{
    let (m, _) = manager(i);
    let args = strings1(m.as_str());
    Request::Program { program: owned("which"), args }
}

/// Starts `git-check`: asks for `git --version`.
pub fn check(ui: &Ui, upgrade: bool, os: TargetOs) -> (r: (GitCheck, Step<Result<(), String>>))
    ensures
        r.0.ui == *ui,
        r.0.upgrade == upgrade,
        r.0.os == os,
        r.0.phase == CheckPhase::Version,
        check_step_view(r.1) == (StepView::<Result<(), Seq<char>>> {
            effects: seq![],
            next: NextView::Ask(RequestView::Program { program: "git"@, args: seq!["--version"@] }),
        }),
{
    let g = GitCheck { ui: *ui, upgrade, os, manager: String::new(), phase: CheckPhase::Version };
    (g, Step { effects: no_effects(), next: Next::Ask(Request::Program { program: owned("git"), args: strings1("--version") }) })
}

impl GitCheck {
    fn announce(&mut self, fx: Vec<Effect>, mgr: String, args: Vec<String>) -> (r: Step<Result<(), String>>)
        ensures
            final(self).ui == old(self).ui,
            final(self).upgrade == old(self).upgrade,
            final(self).os == old(self).os,
            ({
                let a = announce(old(self).ui, mgr@, views(args@));
                &&& final(self).phase == a.0
                &&& final(self).manager@ == a.1
                &&& check_step_view(r) == (StepView::<Result<(), Seq<char>>> { effects: effect_views(fx@) + a.2.effects, next: a.2.next })
            }),
    {
        let t = &self.ui.theme;
        let mut l = owned(" ");
        l.append(t.cyan());
        l.append("Обновление: ");
        l.append(mgr.as_str());
        l.append(" ");
        l.append(join_strings(&args, " ").as_str());
        l.append(t.reset());
        let mut fx = fx;
        let ghost before = effect_views(fx@);
        add_effect(&mut fx, print_line(&self.ui, l));
        self.phase = CheckPhase::Upgrade;
        self.manager = mgr.clone();
        let step = Step { effects: fx, next: Next::Ask(Request::Interactive { program: mgr, args }) };
        assert(effect_views(step.effects@) =~= before + announce(old(self).ui, self.manager@, views(step.next->Ask_0->Interactive_args@)).2.effects);
        step
    }

    /// One step: `e` answers the previous request.
    pub fn resume(&mut self, e: Event) -> (r: Step<Result<(), String>>)
        ensures
            final(self).ui == old(self).ui,
            final(self).upgrade == old(self).upgrade,
            final(self).os == old(self).os,
            (final(self).phase, final(self).manager@, check_step_view(r)) == check_next(
                old(self).ui,
                old(self).upgrade,
                old(self).os,
                old(self).manager@,
                old(self).phase,
                e@,
            ),
    {
        let o = outcome_in(e);
        match self.phase {
            CheckPhase::Version => self.on_version(o, Ghost(e@)),
            CheckPhase::Probe(i) => self.on_probe(o, i, Ghost(e@)),
            CheckPhase::Upgrade => self.on_upgrade(o, Ghost(e@)),
            CheckPhase::Done => self.on_done(o, Ghost(e@)),
        }
    }

    fn on_version(&mut self, o: RunOutcome, Ghost(e): Ghost<EventView>) -> (r: Step<Result<(), String>>)
        requires
            old(self).phase == CheckPhase::Version,
            o@ == as_outcome(e),
        ensures
            final(self).ui == old(self).ui,
            final(self).upgrade == old(self).upgrade,
            final(self).os == old(self).os,
            (final(self).phase, final(self).manager@, check_step_view(r)) == check_next(
                old(self).ui,
                old(self).upgrade,
                old(self).os,
                old(self).manager@,
                old(self).phase,
                e,
            ),
    {
        let t = self.ui.theme;
        match version(&o) {
        None => {
            self.phase = CheckPhase::Done;
            let l = colored(t.red(), "Git не найден в PATH", t.reset());
            Step { effects: one_effect(print_line(&self.ui, l)), next: Next::Finish(Err(owned("git not found"))) }
        },
        Some(v) => {
            let mut l = owned(" ");
            l.append(t.green());
            l.append("Git: ");
            l.append(v.as_str());
            l.append(t.reset());
            let fx = one_effect(print_line(&self.ui, l));
            if !self.upgrade {
                self.phase = CheckPhase::Done;
                Step { effects: fx, next: Next::Finish(Ok(())) }
            } else {
                match self.os {
                    TargetOs::Android => self.announce(fx, owned("pkg"), strings3("upgrade", "git", "-y")),
                    TargetOs::Windows => self.announce(fx, owned("winget"), strings4("upgrade", "--id", "Git.Git", "-e")),
                    TargetOs::Other => {
                        self.phase = CheckPhase::Probe(0);
                        Step { effects: fx, next: Next::Ask(which(0)) }
                    },
                }
            }
        },
        }
    }

    fn on_probe(&mut self, o: RunOutcome, i: usize, Ghost(e): Ghost<EventView>) -> (r: Step<Result<(), String>>)
        requires
            old(self).phase == CheckPhase::Probe(i),
            o@ == as_outcome(e),
        ensures
            final(self).ui == old(self).ui,
            final(self).upgrade == old(self).upgrade,
            final(self).os == old(self).os,
            (final(self).phase, final(self).manager@, check_step_view(r)) == check_next(
                old(self).ui,
                old(self).upgrade,
                old(self).os,
                old(self).manager@,
                old(self).phase,
                e,
            ),
    {
        let t = self.ui.theme;
        let found = match &o {
            RunOutcome::Exited { code, .. } => match code {
                Some(c) => *c == 0,
                None => false,
            },
            RunOutcome::SpawnFailed(_) => false,
        };
        if i < 5 && found {
            let (m, args) = manager(i);
            self.announce(no_effects(), m, args)
        } else if i < 4 {
            self.phase = CheckPhase::Probe(i + 1);
            Step { effects: no_effects(), next: Next::Ask(which(i + 1)) }
        } else {
            self.phase = CheckPhase::Done;
            let l = colored(t.yellow(), "Не определил пакетный менеджер — обнови Git вручную", t.reset());
            Step { effects: one_effect(print_line(&self.ui, l)), next: Next::Finish(Ok(())) }
        }
    }

    fn on_upgrade(&mut self, o: RunOutcome, Ghost(e): Ghost<EventView>) -> (r: Step<Result<(), String>>)
        requires
            old(self).phase == CheckPhase::Upgrade,
            o@ == as_outcome(e),
        ensures
            final(self).ui == old(self).ui,
            final(self).upgrade == old(self).upgrade,
            final(self).os == old(self).os,
            (final(self).phase, final(self).manager@, check_step_view(r)) == check_next(
                old(self).ui,
                old(self).upgrade,
                old(self).os,
                old(self).manager@,
                old(self).phase,
                e,
            ),
    {
        let t = self.ui.theme;
        self.phase = CheckPhase::Done;
        match o {
            RunOutcome::SpawnFailed(err) => {
                let mut m = owned("запуск ");
                m.append(self.manager.as_str());
                m.append(": ");
                m.append(err.as_str());
                assert(m@ =~= "запуск "@ + old(self).manager@ + ": "@ + err@);
                Step { effects: no_effects(), next: Next::Finish(Err(m)) }
            },
            RunOutcome::Exited { code, .. } => {
                let ok = match code {
                    Some(c) => c == 0,
                    None => false,
                };
                if ok {
                    let l = colored(t.green(), "Git обновлён", t.reset());
                    Step { effects: one_effect(print_line(&self.ui, l)), next: Next::Finish(Ok(())) }
                } else {
                    let mut m = self.manager.clone();
                    m.append(" завершился с кодом ");
                    match code {
                        Some(c) => {
                            m.append("Some(");
                            m.append(i64_string(c as i64).as_str());
                            m.append(")");
                        },
                        None => m.append("None"),
                    }
                    assert(m@ =~= old(self).manager@ + " завершился с кодом "@ + debug_code(code));
                    Step { effects: no_effects(), next: Next::Finish(Err(m)) }
                }
            },
        }
    }

    fn on_done(&mut self, o: RunOutcome, Ghost(e): Ghost<EventView>) -> (r: Step<Result<(), String>>)
        requires
            old(self).phase == CheckPhase::Done,
            o@ == as_outcome(e),
        ensures
            final(self).ui == old(self).ui,
            final(self).upgrade == old(self).upgrade,
            final(self).os == old(self).os,
            (final(self).phase, final(self).manager@, check_step_view(r)) == check_next(
                old(self).ui,
                old(self).upgrade,
                old(self).os,
                old(self).manager@,
                old(self).phase,
                e,
            ),
    {
        let t = self.ui.theme;
        Step { effects: no_effects(), next: Next::Finish(Ok(())) }
    }
}

} // verus!
