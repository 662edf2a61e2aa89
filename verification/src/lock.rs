//! The lock folder that keeps two syncs from running at once, with the
//! process id of its holder inside; a lock whose holder is gone is taken over.
use vstd::prelude::*;
use crate::machine::{
    Effect, EffectView, Event, EventView, Next, NextView, Request, RequestView, Step, StepView,
    add_effect, effect_views, no_effects, one_effect,
};
use crate::path::{joined, parent_of, path_join, path_parent};
use crate::sync_machine::{as_flag, as_text};
use crate::text::{dec, dec_string, owned, parse_u32, parse_unsigned, trim, trim_str};

verus! {

/// A held lock: the folder that marks it.
pub struct Lock {
    pub dir: String,
}

#[derive(Debug, Clone, Copy, PartialEq, Eq, Structural)]
pub enum LockPhase {
    Create,
    ReadPid,
    CheckAlive(u32),
    Retry,
    Done,
}

/// Taking the lock, as a step machine.
pub struct LockAcquire {
    pub dir: String,
    pub phase: LockPhase,
}

pub open spec fn lock_out(r: Result<Lock, String>) -> Result<Seq<char>, Seq<char>> {
    match r {
        Ok(l) => Ok(l.dir@),
        Err(e) => Err(e@),
    }
}

pub open spec fn lock_step_view(s: Step<Result<Lock, String>>) -> StepView<Result<Seq<char>, Seq<char>>> {
    StepView {
        effects: effect_views(s.effects@),
        next: match s.next {
            Next::Ask(r) => NextView::Ask(r@),
            Next::Finish(x) => NextView::Finish(lock_out(x)),
        },
    }
}

pub open spec fn pid_file(dir: Seq<char>) -> Seq<char> {
    joined(dir, "pid"@)
}

/// The process id a pid file holds: its trimmed text as a number.
pub open spec fn pid_in(text: Seq<char>) -> Option<u32> {
    match parse_unsigned(trim(text), u32::MAX as nat) {
        Some(n) => Some(n as u32),
        None => None,
    }
}

pub open spec fn running_message(pid: u32) -> Seq<char> {
    "Sync already running (PID "@ + dec(pid as nat) + ")"@
}

pub open spec fn cannot_lock_message(dir: Seq<char>) -> Seq<char> {
    "Cannot acquire lock: "@ + dir
}

pub type LockTrans = (LockPhase, StepView<Result<Seq<char>, Seq<char>>>);

pub open spec fn take_over(dir: Seq<char>) -> LockTrans {
    (
        LockPhase::Retry,
        StepView {
            effects: seq![EffectView::RemoveDirAll(dir)],
            next: NextView::Ask(RequestView::CreateDir(dir)),
        },
    )
}

pub open spec fn locked(dir: Seq<char>) -> LockTrans {
    (
        LockPhase::Done,
        StepView {
            effects: seq![EffectView::WritePid(pid_file(dir))],
            next: NextView::Finish(Ok(dir)),
        },
    )
}

/// One step of taking the lock in folder `dir`.
pub open spec fn lock_next(dir: Seq<char>, p: LockPhase, e: EventView) -> LockTrans {
    match p {
        LockPhase::Create => if as_flag(e) {
            locked(dir)
        } else {
            (
                LockPhase::ReadPid,
                StepView { effects: seq![], next: NextView::Ask(RequestView::ReadFile(pid_file(dir))) },
            )
        },
        LockPhase::ReadPid => match pid_in(as_text(e)) {
            Some(pid) => (
                LockPhase::CheckAlive(pid),
                StepView { effects: seq![], next: NextView::Ask(RequestView::ProcessAlive(pid)) },
            ),
            None => take_over(dir),
        },
        LockPhase::CheckAlive(pid) => if as_flag(e) {
            (
                LockPhase::Done,
                StepView { effects: seq![], next: NextView::Finish(Err(running_message(pid))) },
            )
        } else {
            take_over(dir)
        },
        LockPhase::Retry => if as_flag(e) {
            locked(dir)
        } else {
            (
                LockPhase::Done,
                StepView { effects: seq![], next: NextView::Finish(Err(cannot_lock_message(dir))) },
            )
        },
        LockPhase::Done => (
            LockPhase::Done,
            StepView { effects: seq![], next: NextView::Finish(Err(cannot_lock_message(dir))) },
        ),
    }
}

fn event_flag(e: &Event) -> (b: bool)
    ensures
        b == as_flag(e@),
{
    match e {
        Event::Flag(b) => *b,
        _ => false,
    }
}

fn event_text(e: &Event) -> (t: String)
    ensures
        t@ == as_text(e@),
{
    match e {
        Event::Text(Some(t)) => t.clone(),
        _ => String::new(),
    }
}

impl Lock {
    /// Starts taking the lock in folder `dir`: its parent folder is created,
    /// then the folder itself.
    pub fn acquire(dir: String) -> (r: (LockAcquire, Step<Result<Lock, String>>))
        ensures
            r.0.dir@ == dir@,
            r.0.phase == LockPhase::Create,
            lock_step_view(r.1) == (StepView::<Result<Seq<char>, Seq<char>>> {
                effects: match parent_of(dir@) {
                    Some(p) => seq![EffectView::CreateDirAll(p)],
                    None => seq![],
                },
                next: NextView::Ask(RequestView::CreateDir(dir@)),
            }),
    {
        let mut fx = no_effects();
        match path_parent(dir.as_str()) {
            Some(p) => add_effect(&mut fx, Effect::CreateDirAll(p)),
            None => {},
        }
        proof {
            match parent_of(dir@) {
                Some(p) => assert(effect_views(fx@) =~= seq![EffectView::CreateDirAll(p)]),
                None => assert(effect_views(fx@) =~= seq![]),
            }
        }
        let d = dir.clone();
        (LockAcquire { dir, phase: LockPhase::Create }, Step { effects: fx, next: Next::Ask(Request::CreateDir(d)) })
    }
}

impl LockAcquire {
    fn take_over(&mut self) -> (r: Step<Result<Lock, String>>)
        ensures
            final(self).dir == old(self).dir,
            (final(self).phase, lock_step_view(r)) == take_over(old(self).dir@),
    {
        self.phase = LockPhase::Retry;
        Step { effects: one_effect(Effect::RemoveDirAll(self.dir.clone())), next: Next::Ask(Request::CreateDir(self.dir.clone())) }
    }

    fn locked(&mut self) -> (r: Step<Result<Lock, String>>)
        ensures
            final(self).dir == old(self).dir,
            (final(self).phase, lock_step_view(r)) == locked(old(self).dir@),
    {
        self.phase = LockPhase::Done;
        let pid = path_join(self.dir.as_str(), "pid");
        Step { effects: one_effect(Effect::WritePid(pid)), next: Next::Finish(Ok(Lock { dir: self.dir.clone() })) }
    }

    /// One step: `e` answers the previous request.
    pub fn resume(&mut self, e: Event) -> (r: Step<Result<Lock, String>>)
        ensures
            final(self).dir == old(self).dir,
            (final(self).phase, lock_step_view(r)) == lock_next(old(self).dir@, old(self).phase, e@),
    {
        match self.phase {
            LockPhase::Create => {
                if event_flag(&e) {
                    self.locked()
                } else {
                    self.phase = LockPhase::ReadPid;
                    let f = path_join(self.dir.as_str(), "pid");
                    Step { effects: no_effects(), next: Next::Ask(Request::ReadFile(f)) }
                }
            },
            LockPhase::ReadPid => {
                let text = event_text(&e);
                let t = trim_str(text.as_str());
                match parse_u32(t.as_str()) {
                    Some(pid) => {
                        self.phase = LockPhase::CheckAlive(pid);
                        Step { effects: no_effects(), next: Next::Ask(Request::ProcessAlive(pid)) }
                    },
                    None => self.take_over(),
                }
            },
            LockPhase::CheckAlive(pid) => {
                if event_flag(&e) {
                    self.phase = LockPhase::Done;
                    let mut m = owned("Sync already running (PID ");
                    m.append(dec_string(pid as u64).as_str());
                    m.append(")");
                    Step { effects: no_effects(), next: Next::Finish(Err(m)) }
                } else {
                    self.take_over()
                }
            },
            LockPhase::Retry => {
                if event_flag(&e) {
                    self.locked()
                } else {
                    self.phase = LockPhase::Done;
                    let m = crate::text::cat("Cannot acquire lock: ", self.dir.as_str());
                    Step { effects: no_effects(), next: Next::Finish(Err(m)) }
                }
            },
            LockPhase::Done => {
                let m = crate::text::cat("Cannot acquire lock: ", self.dir.as_str());
                Step { effects: no_effects(), next: Next::Finish(Err(m)) }
            },
        }
    }
}

/// A live holder is never displaced: when the pid file names a process that
/// is alive, taking the lock fails and removes nothing.
pub proof fn lemma_live_holder_kept(dir: Seq<char>, pid: u32)
    ensures
        lock_next(dir, LockPhase::CheckAlive(pid), EventView::Flag(true)).1 == (StepView::<
            Result<Seq<char>, Seq<char>>,
        > { effects: seq![], next: NextView::Finish(Err(running_message(pid))) }),
{
}

/// The holder's pid is read back: the text a holder writes into the pid
/// file (its id in decimal) reads as that id, for every `u32`, so the step
/// after reading it asks whether that very process is alive, and removes
/// nothing.
pub proof fn lemma_pid_read_back(dir: Seq<char>, pid: u32)
    ensures
        pid_in(dec(pid as nat)) == Some(pid),
        lock_next(dir, LockPhase::ReadPid, EventView::Text(Some(dec(pid as nat)))) == (
            LockPhase::CheckAlive(pid),
            StepView::<Result<Seq<char>, Seq<char>>> {
                effects: seq![],
                next: NextView::Ask(RequestView::ProcessAlive(pid)),
            },
        ),
{
    crate::text::lemma_trim_dec(pid as nat);
    crate::text::lemma_parse_dec(pid as nat, u32::MAX as nat);
}

/// A free lock is taken: whenever the lock folder can be made (as after the
/// holder removed it on release), the step that made it holds the lock and
/// writes this process's id into the pid file, and nothing is removed.
pub proof fn lemma_free_lock_taken(dir: Seq<char>)
    ensures
        lock_next(dir, LockPhase::Create, EventView::Flag(true)) == locked(dir),
        lock_next(dir, LockPhase::Retry, EventView::Flag(true)) == locked(dir),
        locked(dir).1 == (StepView::<Result<Seq<char>, Seq<char>>> {
            effects: seq![EffectView::WritePid(pid_file(dir))],
            next: NextView::Finish(Ok(dir)),
        }),
{
}

/// A stale lock is taken over: when the pid file cannot be read as a
/// process id, or names a process that is gone, the folder is removed and
/// created again.
pub proof fn lemma_stale_lock_taken_over(dir: Seq<char>, pid: u32, text: Seq<char>)
    ensures
        lock_next(dir, LockPhase::CheckAlive(pid), EventView::Flag(false)) == take_over(dir),
        pid_in(text) is None ==> lock_next(dir, LockPhase::ReadPid, EventView::Text(Some(text))) == take_over(dir),
        take_over(dir).1.effects == seq![EffectView::RemoveDirAll(dir)],
        take_over(dir).1.next == NextView::<Result<Seq<char>, Seq<char>>>::Ask(RequestView::CreateDir(dir)),
{
}

} // verus!
