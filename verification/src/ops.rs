//! Git operations made of several commands, as small step machines: each
//! step takes the previous command's result and gives the next command or
//! the operation's result.
use vstd::prelude::*;
use crate::git::{
    CommandView, Git, GitCommand, config_get_cmd, config_set_cmd, config_value, counts_cmd,
    counts_of, global_get_cmd, output_or_empty, read_global_config, read_global_config_result,
    result_views, upstream_cmd,
};
use crate::text::{all_ws, is_blank, owned};

verus! {

/// What an operation does next: run a command, or end with a result.
pub enum OpNext<T> {
    Run(GitCommand),
    Done(T),
}

pub enum OpNextView<T> {
    Run(CommandView),
    Done(T),
}

pub open spec fn unit_result_view(r: Result<(), String>) -> Result<(), Seq<char>> {
    match r {
        Ok(()) => Ok(()),
        Err(e) => Err(e@),
    }
}

// ---------------------------------------------------------------- identity

/// Makes sure the repository has a user name and e-mail for commits: the
/// repository's own values when both are set, else the global ones copied
/// into it.
pub enum IdentityCheck {
    AskName,
    AskEmail { name: String },
    AskGlobalName { name: String, email: String },
    AskGlobalEmail { name: String, email: String, gname: String },
    SetName { email_blank: bool, gemail: String },
    SetEmail,
    Finished,
}

pub enum IdentityView {
    AskName,
    AskEmail { name: Seq<char> },
    AskGlobalName { name: Seq<char>, email: Seq<char> },
    AskGlobalEmail { name: Seq<char>, email: Seq<char>, gname: Seq<char> },
    SetName { email_blank: bool, gemail: Seq<char> },
    SetEmail,
    Finished,
}

impl View for IdentityCheck {
    type V = IdentityView;

    open spec fn view(&self) -> IdentityView {
        match self {
            IdentityCheck::AskName => IdentityView::AskName,
            IdentityCheck::AskEmail { name } => IdentityView::AskEmail { name: name@ },
            IdentityCheck::AskGlobalName { name, email } => IdentityView::AskGlobalName {
                name: name@,
                email: email@,
            },
            IdentityCheck::AskGlobalEmail { name, email, gname } => IdentityView::AskGlobalEmail {
                name: name@,
                email: email@,
                gname: gname@,
            },
            IdentityCheck::SetName { email_blank, gemail } => IdentityView::SetName {
                email_blank: *email_blank,
                gemail: gemail@,
            },
            IdentityCheck::SetEmail => IdentityView::SetEmail,
            IdentityCheck::Finished => IdentityView::Finished,
        }
    }
}

pub open spec fn identity_error() -> Seq<char> {
    "Git identity not configured"@
}

/// One step of the identity check, given the result of the command the
/// previous step ran.
pub open spec fn identity_next(s: IdentityView, r: Result<Seq<char>, Seq<char>>) -> (
    IdentityView,
    OpNextView<Result<(), Seq<char>>>,
) {
    match s {
        IdentityView::AskName => (
            IdentityView::AskEmail { name: output_or_empty(r) },
            OpNextView::Run(config_get_cmd("user.email"@)),
        ),
        IdentityView::AskEmail { name } => {
            let email = output_or_empty(r);
            if !all_ws(name) && !all_ws(email) {
                (IdentityView::Finished, OpNextView::Done(Ok(())))
            } else {
                (
                    IdentityView::AskGlobalName { name, email },
                    OpNextView::Run(global_get_cmd("user.name"@)),
                )
            }
        },
        IdentityView::AskGlobalName { name, email } => (
            IdentityView::AskGlobalEmail { name, email, gname: config_value(r) },
            OpNextView::Run(global_get_cmd("user.email"@)),
        ),
        IdentityView::AskGlobalEmail { name, email, gname } => {
            let gemail = config_value(r);
            if gname.len() == 0 || gemail.len() == 0 {
                (IdentityView::Finished, OpNextView::Done(Err(identity_error())))
            } else if all_ws(name) {
                (
                    IdentityView::SetName { email_blank: all_ws(email), gemail },
                    OpNextView::Run(config_set_cmd("user.name"@, gname)),
                )
            } else {
                (IdentityView::SetEmail, OpNextView::Run(config_set_cmd("user.email"@, gemail)))
            }
        },
        IdentityView::SetName { email_blank, gemail } => match r {
            Err(e) => (IdentityView::Finished, OpNextView::Done(Err(e))),
            Ok(_) => if email_blank {
                (IdentityView::SetEmail, OpNextView::Run(config_set_cmd("user.email"@, gemail)))
            } else {
                (IdentityView::Finished, OpNextView::Done(Ok(())))
            },
        },
        IdentityView::SetEmail => match r {
            Err(e) => (IdentityView::Finished, OpNextView::Done(Err(e))),
            Ok(_) => (IdentityView::Finished, OpNextView::Done(Ok(()))),
        },
        IdentityView::Finished => (IdentityView::Finished, OpNextView::Done(Ok(()))),
    }
}

pub open spec fn identity_next_view(n: OpNext<Result<(), String>>) -> OpNextView<
    Result<(), Seq<char>>,
> {
    match n {
        OpNext::Run(c) => OpNextView::Run(c@),
        OpNext::Done(r) => OpNextView::Done(unit_result_view(r)),
    }
}

impl IdentityCheck {
    /// The first command: `git config user.name`.
    pub fn start(git: &Git) -> (r: (IdentityCheck, GitCommand))
        ensures
            r.0@ == IdentityView::AskName,
            r.1@ == config_get_cmd("user.name"@),
    {
        (IdentityCheck::AskName, git.config_get("user.name"))
    }

    pub fn resume(&mut self, git: &Git, r: Result<String, String>) -> (n: OpNext<Result<(), String>>)
        ensures
            (final(self)@, identity_next_view(n)) == identity_next(old(self)@, result_views(r)),
    {
        let mut s = IdentityCheck::Finished;
        std::mem::swap(&mut s, self);
        match s {
            IdentityCheck::AskName => {
                let name = match r {
                    Ok(o) => o,
                    Err(_) => String::new(),
                };
                *self = IdentityCheck::AskEmail { name };
                OpNext::Run(git.config_get("user.email"))
            },
            IdentityCheck::AskEmail { name } => {
                let email = match r {
                    Ok(o) => o,
                    Err(_) => String::new(),
                };
                if !is_blank(name.as_str()) && !is_blank(email.as_str()) {
                    OpNext::Done(Ok(()))
                } else {
                    *self = IdentityCheck::AskGlobalName { name, email };
                    OpNext::Run(read_global_config("user.name"))
                }
            },
            IdentityCheck::AskGlobalName { name, email } => {
                let gname = read_global_config_result(&r);
                *self = IdentityCheck::AskGlobalEmail { name, email, gname };
                OpNext::Run(read_global_config("user.email"))
            },
            IdentityCheck::AskGlobalEmail { name, email, gname } => {
                let gemail = read_global_config_result(&r);
                if gname.unicode_len() == 0 || gemail.unicode_len() == 0 {
                    OpNext::Done(Err(owned("Git identity not configured")))
                } else if is_blank(name.as_str()) {
                    let email_blank = is_blank(email.as_str());
                    let c = git.config_set("user.name", gname.as_str());
                    *self = IdentityCheck::SetName { email_blank, gemail };
                    OpNext::Run(c)
                } else {
                    let c = git.config_set("user.email", gemail.as_str());
                    *self = IdentityCheck::SetEmail;
                    OpNext::Run(c)
                }
            },
            IdentityCheck::SetName { email_blank, gemail } => match r {
                Err(e) => OpNext::Done(Err(e)),
                Ok(_) => {
                    if email_blank {
                        let c = git.config_set("user.email", gemail.as_str());
                        *self = IdentityCheck::SetEmail;
                        OpNext::Run(c)
                    } else {
                        OpNext::Done(Ok(()))
                    }
                },
            },
            IdentityCheck::SetEmail => match r {
                Err(e) => OpNext::Done(Err(e)),
                Ok(_) => OpNext::Done(Ok(())),
            },
            IdentityCheck::Finished => OpNext::Done(Ok(())),
        }
    }
}

impl Git {
    /// `ensure_identity`: starts the identity check; its first command reads
    /// the repository's `user.name`. Feed each result to
    /// `IdentityCheck::resume`.
    pub fn ensure_identity(&self) -> (r: (IdentityCheck, GitCommand))
        ensures
            r.0@ == IdentityView::AskName,
            r.1@ == config_get_cmd("user.name"@),
    {
        IdentityCheck::start(self)
    }
}

/// What the identity check has learnt so far: once it asks for the global
/// values, the repository's name or e-mail was blank.
pub open spec fn identity_inv(s: IdentityView) -> bool {
    match s {
        IdentityView::AskGlobalName { name, email } => all_ws(name) || all_ws(email),
        IdentityView::AskGlobalEmail { name, email, .. } => all_ws(name) || all_ws(email),
        _ => true,
    }
}

/// The identity check only fills in what is blank: with a name and an
/// e-mail already set it ends at once and writes nothing; it writes
/// `user.name` only when the name read was blank, and `user.email` only when
/// the e-mail read was blank (directly, or after writing the name). The
/// invariant holds from the first state on.
pub proof fn lemma_identity_fills_only_blanks(
    s: IdentityView,
    r: Result<Seq<char>, Seq<char>>,
    v: Seq<char>,
)
    requires
        identity_inv(s),
    ensures
        identity_inv(IdentityView::AskName),
        identity_inv(identity_next(s, r).0),
        (s matches IdentityView::AskEmail { name } && !all_ws(name) && !all_ws(output_or_empty(r)))
            ==> identity_next(s, r).1 == OpNextView::<Result<(), Seq<char>>>::Done(Ok(())),
        identity_next(s, r).1 == OpNextView::<Result<(), Seq<char>>>::Run(config_set_cmd("user.name"@, v))
            ==> (s matches IdentityView::AskGlobalEmail { name, .. } && all_ws(name)),
        identity_next(s, r).1 == OpNextView::<Result<(), Seq<char>>>::Run(config_set_cmd("user.email"@, v))
            ==> ((s matches IdentityView::AskGlobalEmail { email, .. } && all_ws(email))
                || (s matches IdentityView::SetName { email_blank, .. } && email_blank)),
{
    reveal_strlit("user.name");
    reveal_strlit("user.email");
    assert("user.name"@.len() != "user.email"@.len());
    assert(config_get_cmd("user.email"@).args.len() == 2);
    assert(config_set_cmd("user.email"@, v).args.len() == 3);
    if let IdentityView::AskGlobalEmail { name, email, gname } = s {
        let gemail = config_value(r);
        if !(gname.len() == 0 || gemail.len() == 0) && all_ws(name) {
            let got = config_set_cmd("user.name"@, gname);
            let other = config_set_cmd("user.email"@, v);
            if got == other {
                assert(got.args[1] == other.args[1]);
            }
        }
    }
}

// ------------------------------------------------------------- ahead/behind

/// Counts the commits the branch is ahead of and behind its upstream;
/// `(0, 0)` when there is no upstream.
#[derive(Debug, Clone, Copy, PartialEq, Eq, Structural)]
pub enum AheadBehind {
    AskUpstream,
    AskCounts,
}

pub open spec fn ahead_behind_next(s: AheadBehind, r: Result<Seq<char>, Seq<char>>) -> (
    AheadBehind,
    OpNextView<(u32, u32)>,
) {
    match s {
        AheadBehind::AskUpstream => match r {
            Err(_) => (AheadBehind::AskUpstream, OpNextView::Done((0u32, 0u32))),
            Ok(_) => (AheadBehind::AskCounts, OpNextView::Run(counts_cmd())),
        },
        AheadBehind::AskCounts => (
            AheadBehind::AskCounts,
            OpNextView::Done(
                match r {
                    Ok(out) => counts_of(out),
                    Err(_) => (0u32, 0u32),
                },
            ),
        ),
    }
}

pub open spec fn counts_next_view(n: OpNext<(u32, u32)>) -> OpNextView<(u32, u32)> {
    match n {
        OpNext::Run(c) => OpNextView::Run(c@),
        OpNext::Done(p) => OpNextView::Done(p),
    }
}

impl AheadBehind {
    /// The first command: is there an upstream?
    pub fn start(git: &Git) -> (r: (AheadBehind, GitCommand))
        ensures
            r.0 == AheadBehind::AskUpstream,
            r.1@ == upstream_cmd(),
    {
        (AheadBehind::AskUpstream, git.ahead_behind())
    }

    pub fn resume(&mut self, git: &Git, r: Result<String, String>) -> (n: OpNext<(u32, u32)>)
        ensures
            (*final(self), counts_next_view(n)) == ahead_behind_next(*old(self), result_views(r)),
    {
        match self {
            AheadBehind::AskUpstream => {
                if r.is_err() {
                    OpNext::Done((0, 0))
                } else {
                    *self = AheadBehind::AskCounts;
                    OpNext::Run(git.ahead_behind_counts())
                }
            },
            AheadBehind::AskCounts => OpNext::Done(Git::ahead_behind_result(&r)),
        }
    }
}

} // verus!
