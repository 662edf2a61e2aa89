//! The vocabulary in which the library's step machines talk to the program
//! that runs them: what they ask for, what they report back, and what they
//! have done on their behalf.
use vstd::prelude::*;
use crate::clock::TimeKind;
use crate::git::{GitCommand, CommandView, RunOutcome, OutcomeView};
use crate::text::views;

verus! {

/// Work whose result the machine does not read.
pub enum Effect {
    /// Lines to print on the console.
    Print(Vec<String>),
    /// A line for the log file.
    Log(String),
    /// Show a spinner with this message.
    SpinnerStart(String),
    /// Remove the spinner, if one is shown.
    SpinnerStop,
    /// Run a git command and ignore how it went.
    Git(GitCommand),
    /// Create a folder and its parents, ignoring failure.
    CreateDirAll(String),
    /// Append a line (with a newline) to a file, creating it if needed.
    AppendLine { path: String, line: String },
    /// Write bytes to a file, ignoring failure.
    WriteFile { path: String, data: Vec<u8> },
    /// Remove the files of a folder older than the conflict backups may get.
    CleanupOld(String),
    /// Write this process's id into a file.
    WritePid(String),
    /// Remove a folder and everything in it, ignoring failure.
    RemoveDirAll(String),
}

/// What a machine asks for before it can go on.
pub enum Request {
    /// Run a git command; answered by `Event::Ran`.
    Git(GitCommand),
    /// Run a program found in `PATH`; answered by `Event::Ran`.
    Program { program: String, args: Vec<String> },
    /// Run a program with the terminal attached (its output is not read);
    /// answered by `Event::Ran`.
    Interactive { program: String, args: Vec<String> },
    /// Is there a folder at this path? Answered by `Event::Flag`.
    IsDir(String),
    /// Create this folder (not its parents); answered by `Event::Flag`, true
    /// when it was created.
    CreateDir(String),
    /// Read a file's text; answered by `Event::Text`, `None` when it could not
    /// be read.
    ReadFile(String),
    /// Is a process with this id alive? Answered by `Event::Flag`.
    ProcessAlive(u32),
    /// The local time, written as the kind says; answered by `Event::Text`.
    Time(TimeKind),
    /// Whole seconds since the machine started; answered by `Event::Seconds`.
    Elapsed,
}

/// The answer to a request.
pub enum Event {
    Ran(RunOutcome),
    Flag(bool),
    Text(Option<String>),
    Seconds(u64),
}

/// A step: effects to carry out in order, then a request or the result.
pub struct Step<R> {
    pub effects: Vec<Effect>,
    pub next: Next<R>,
}

pub enum Next<R> {
    Ask(Request),
    Finish(R),
}

// ------------------------------------------------------------------- views

pub enum EffectView {
    Print(Seq<Seq<char>>),
    Log(Seq<char>),
    SpinnerStart(Seq<char>),
    SpinnerStop,
    Git(CommandView),
    CreateDirAll(Seq<char>),
    AppendLine { path: Seq<char>, line: Seq<char> },
    WriteFile { path: Seq<char>, data: Seq<u8> },
    CleanupOld(Seq<char>),
    WritePid(Seq<char>),
    RemoveDirAll(Seq<char>),
}

pub enum RequestView {
    Git(CommandView),
    Program { program: Seq<char>, args: Seq<Seq<char>> },
    Interactive { program: Seq<char>, args: Seq<Seq<char>> },
    IsDir(Seq<char>),
    CreateDir(Seq<char>),
    ReadFile(Seq<char>),
    ProcessAlive(u32),
    Time(TimeKind),
    Elapsed,
}

pub enum EventView {
    Ran(OutcomeView),
    Flag(bool),
    Text(Option<Seq<char>>),
    Seconds(u64),
}

pub enum NextView<R> {
    Ask(RequestView),
    Finish(R),
}

pub struct StepView<R> {
    pub effects: Seq<EffectView>,
    pub next: NextView<R>,
}

impl View for Effect {
    type V = EffectView;

    open spec fn view(&self) -> EffectView {
        match self {
            Effect::Print(v) => EffectView::Print(views(v@)),
            Effect::Log(s) => EffectView::Log(s@),
            Effect::SpinnerStart(s) => EffectView::SpinnerStart(s@),
            Effect::SpinnerStop => EffectView::SpinnerStop,
            Effect::Git(c) => EffectView::Git(c@),
            Effect::CreateDirAll(p) => EffectView::CreateDirAll(p@),
            Effect::AppendLine { path, line } => EffectView::AppendLine {
                path: path@,
                line: line@,
            },
            Effect::WriteFile { path, data } => EffectView::WriteFile { path: path@, data: data@ },
            Effect::CleanupOld(p) => EffectView::CleanupOld(p@),
            Effect::WritePid(p) => EffectView::WritePid(p@),
            Effect::RemoveDirAll(p) => EffectView::RemoveDirAll(p@),
        }
    }
}

impl View for Request {
    type V = RequestView;

    open spec fn view(&self) -> RequestView {
        match self {
            Request::Git(c) => RequestView::Git(c@),
            Request::Program { program, args } => RequestView::Program {
                program: program@,
                args: views(args@),
            },
            Request::Interactive { program, args } => RequestView::Interactive {
                program: program@,
                args: views(args@),
            },
            Request::IsDir(p) => RequestView::IsDir(p@),
            Request::CreateDir(p) => RequestView::CreateDir(p@),
            Request::ReadFile(p) => RequestView::ReadFile(p@),
            Request::ProcessAlive(pid) => RequestView::ProcessAlive(*pid),
            Request::Time(k) => RequestView::Time(*k),
            Request::Elapsed => RequestView::Elapsed,
        }
    }
}

impl View for Event {
    type V = EventView;

    open spec fn view(&self) -> EventView {
        match self {
            Event::Ran(o) => EventView::Ran(o@),
            Event::Flag(b) => EventView::Flag(*b),
            Event::Text(t) => EventView::Text(
                match t {
                    Some(s) => Some(s@),
                    None => None,
                },
            ),
            Event::Seconds(n) => EventView::Seconds(*n),
        }
    }
}

pub open spec fn effect_views(v: Seq<Effect>) -> Seq<EffectView> {
    v.map_values(|e: Effect| e@)
}

/// A step whose result is viewed by `f`.
pub open spec fn step_view<R, V>(s: Step<R>, f: spec_fn(R) -> V) -> StepView<V> {
    StepView {
        effects: effect_views(s.effects@),
        next: match s.next {
            Next::Ask(r) => NextView::Ask(r@),
            Next::Finish(x) => NextView::Finish(f(x)),
        },
    }
}

pub fn no_effects() -> (v: Vec<Effect>)
    ensures
        effect_views(v@) == Seq::<EffectView>::empty(),
{
    let v: Vec<Effect> = Vec::new();
    assert(effect_views(v@) =~= seq![]);
    v
}

pub fn add_effect(v: &mut Vec<Effect>, e: Effect)
    ensures
        effect_views(final(v)@) == effect_views(old(v)@).push(e@),
{
    let ghost before = v@;
    v.push(e);
    assert(effect_views(v@) =~= effect_views(before).push(e@));
}

pub fn one_effect(e: Effect) -> (v: Vec<Effect>)
    ensures
        effect_views(v@) == seq![e@],
{
    let mut v = no_effects();
    add_effect(&mut v, e);
    assert(effect_views(v@) =~= seq![e@]);
    v
}

} // verus!
