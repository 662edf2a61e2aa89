//! The git commands the sync runs, how each is invoked, and what is read
//! from its output.
use vstd::prelude::*;
use vstd::utf8::{valid_utf8, decode_utf8};
use crate::config::{FETCH_TIMEOUT_SECS, GIT_OP_TIMEOUT_SECS, SHORT_OP_TIMEOUT_SECS};
use crate::text::{
    Sep, all_ws, cat, cat3, contains, dec, dec_string, is_blank, join, join_strings, lines, owned,
    parse_u32, parse_unsigned, split_lines, split_once, split_once_str, split_tokens, strings1,
    strings2, strings3, strings4, strings5, strings6, tokens, trim, trim_str, views,
};

verus! {

// ------------------------------------------------------------------- types

/// Where a git command runs: in the repository (`git -C <repo>` with hooks
/// and prompts switched off), or as a plain `git` for the global config.
#[derive(Debug, Clone, Copy, PartialEq, Eq, Structural)]
pub enum Scope {
    Repo,
    Global,
}

/// A git command: its arguments after `git`, an optional time limit and
/// where it runs.
pub struct GitCommand {
    pub args: Vec<String>,
    pub timeout_secs: Option<u64>,
    pub scope: Scope,
}

pub struct CommandView {
    pub args: Seq<Seq<char>>,
    pub timeout_secs: Option<u64>,
    pub scope: Scope,
}

impl View for GitCommand {
    type V = CommandView;

    open spec fn view(&self) -> CommandView {
        CommandView { args: views(self.args@), timeout_secs: self.timeout_secs, scope: self.scope }
    }
}

impl GitCommand {
    /// A copy of the command.
    pub fn duplicate(&self) -> (r: GitCommand)
        ensures
            r@ == self@,
    {
        GitCommand {
            args: crate::text::clone_strings(&self.args),
            timeout_secs: self.timeout_secs,
            scope: self.scope,
        }
    }
}

pub open spec fn repo_cmd(args: Seq<Seq<char>>) -> CommandView {
    CommandView { args, timeout_secs: None, scope: Scope::Repo }
}

pub open spec fn timed_cmd(args: Seq<Seq<char>>, secs: u64) -> CommandView {
    CommandView { args, timeout_secs: Some(secs), scope: Scope::Repo }
}

pub open spec fn global_cmd(args: Seq<Seq<char>>) -> CommandView {
    CommandView { args, timeout_secs: None, scope: Scope::Global }
}

/// A process to start: program, arguments and extra environment.
pub struct Invocation {
    pub program: String,
    pub args: Vec<String>,
    pub env: Vec<(String, String)>,
}

pub struct InvocationView {
    pub program: Seq<char>,
    pub args: Seq<Seq<char>>,
    pub env: Seq<(Seq<char>, Seq<char>)>,
}

pub open spec fn pair_views(v: Seq<(String, String)>) -> Seq<(Seq<char>, Seq<char>)> {
    v.map_values(|p: (String, String)| (p.0@, p.1@))
}

impl View for Invocation {
    type V = InvocationView;

    open spec fn view(&self) -> InvocationView {
        InvocationView {
            program: self.program@,
            args: views(self.args@),
            env: pair_views(self.env@),
        }
    }
}

/// What running a process gave: it could not be started (with the error's
/// text), or it exited with a code (none when a signal ended it) and output.
pub enum RunOutcome {
    SpawnFailed(String),
    Exited { code: Option<i32>, stdout: Vec<u8>, stderr: Vec<u8> },
}

pub enum OutcomeView {
    SpawnFailed(Seq<char>),
    Exited { code: Option<i32>, stdout: Seq<u8>, stderr: Seq<u8> },
}

impl View for RunOutcome {
    type V = OutcomeView;

    open spec fn view(&self) -> OutcomeView {
        match self {
            RunOutcome::SpawnFailed(e) => OutcomeView::SpawnFailed(e@),
            RunOutcome::Exited { code, stdout, stderr } => OutcomeView::Exited {
                code: *code,
                stdout: stdout@,
                stderr: stderr@,
            },
        }
    }
}

/// `String::from_utf8_lossy`: the text of the bytes, each invalid sequence
/// replaced by U+FFFD.
pub uninterp spec fn utf8_lossy(b: Seq<u8>) -> Seq<char>;

/// Calls `String::from_utf8_lossy`. Its result is named `utf8_lossy` of the
/// bytes; for valid UTF-8 it is the decoded text, as the documentation says.
#[verifier::external_body]
pub(crate) fn lossy_text(b: &Vec<u8>) -> (r: String)
    ensures
        r@ == utf8_lossy(b@),
        valid_utf8(b@) ==> r@ == decode_utf8(b@),
{
    String::from_utf8_lossy(b).into_owned()
}

pub open spec fn result_views(r: Result<String, String>) -> Result<Seq<char>, Seq<char>> {
    match r {
        Ok(s) => Ok(s@),
        Err(e) => Err(e@),
    }
}

/// `r.unwrap_or_default()` for a command's output.
pub open spec fn output_or_empty(r: Result<Seq<char>, Seq<char>>) -> Seq<char> {
    match r {
        Ok(s) => s,
        Err(_) => seq![],
    }
}

// --------------------------------------------------------------- invocation

pub open spec fn base_args(repo: Seq<char>) -> Seq<Seq<char>> {
    seq!["-C"@, repo, "-c"@, "core.hooksPath=/dev/null"@]
}

/// Environment under which git runs in a repository: no optional locks, no
/// terminal prompt, ssh in batch mode.
pub open spec fn git_env() -> Seq<(Seq<char>, Seq<char>)> {
    seq![
        ("GIT_OPTIONAL_LOCKS"@, "0"@),
        ("GIT_TERMINAL_PROMPT"@, "0"@),
        ("GIT_SSH_COMMAND"@, "ssh -oBatchMode=yes"@),
    ]
}

/// A command runs under `timeout` when it has a limit, runs in the
/// repository, and the system is a unix.
pub open spec fn is_timed(c: CommandView, unix: bool) -> bool {
    c.scope == Scope::Repo && c.timeout_secs is Some && unix
}

pub open spec fn invocation_of(repo: Seq<char>, c: CommandView, unix: bool) -> InvocationView {
    if c.scope == Scope::Global {
        InvocationView { program: "git"@, args: c.args, env: seq![] }
    } else if is_timed(c, unix) {
        InvocationView {
            program: "timeout"@,
            args: seq![dec(c.timeout_secs->0 as nat) + "s"@, "git"@] + base_args(repo) + c.args,
            env: git_env(),
        }
    } else {
        InvocationView { program: "git"@, args: base_args(repo) + c.args, env: git_env() }
    }
}

/// What a command's outcome gives: its standard output when it exited with
/// code 0, the standard error otherwise, a time-out message when `timeout`
/// ended it (code 124), and a message naming the command when it could not
/// be started.
pub open spec fn run_result(c: CommandView, unix: bool, o: OutcomeView) -> Result<
    Seq<char>,
    Seq<char>,
> {
    match o {
        OutcomeView::SpawnFailed(e) => Err(
            (if is_timed(c, unix) {
                "timeout git "@
            } else {
                "git "@
            }) + join(c.args, " "@) + ": "@ + e,
        ),
        OutcomeView::Exited { code, stdout, stderr } => {
            if is_timed(c, unix) && code == Some(124i32) {
                Err("Таймаут "@ + dec(c.timeout_secs->0 as nat) + "с"@)
            } else if code == Some(0i32) {
                Ok(utf8_lossy(stdout))
            } else {
                Err(utf8_lossy(stderr))
            }
        },
    }
}

fn pair(a: &str, b: &str) -> (r: (String, String))
    ensures
        r.0@ == a@,
        r.1@ == b@,
{
    (owned(a), owned(b))
}

fn env_pairs() -> (r: Vec<(String, String)>)
    ensures
        pair_views(r@) == git_env(),
{
    let mut v = Vec::new();
    v.push(pair("GIT_OPTIONAL_LOCKS", "0"));
    v.push(pair("GIT_TERMINAL_PROMPT", "0"));
    v.push(pair("GIT_SSH_COMMAND", "ssh -oBatchMode=yes"));
    assert(pair_views(v@) =~= git_env());
    v
}

/// Appends copies of `src` to `dst`.
fn extend_strings(dst: &mut Vec<String>, src: &Vec<String>)
    ensures
        views(final(dst)@) == views(old(dst)@) + views(src@),
{
    let mut i: usize = 0;
    while i < src.len()
        invariant
            i <= src@.len(),
            views(dst@) == views(old(dst)@) + views(src@).take(i as int),
        decreases src.len() - i,
    {
        let c = src[i].clone();
        let ghost before = dst@;
        dst.push(c);
        assert(views(dst@) =~= views(before).push(src@[i as int]@));
        assert(views(src@).take(i + 1) =~= views(src@).take(i as int).push(src@[i as int]@));
        assert(views(dst@) =~= views(old(dst)@) + views(src@).take(i + 1));
        i = i + 1;
    }
    assert(views(src@).take(src@.len() as int) =~= views(src@));
}

// -------------------------------------------------------------- constructors

fn repo_command(args: Vec<String>) -> (c: GitCommand)
    ensures
        c@ == repo_cmd(views(args@)),
{
    GitCommand { args, timeout_secs: None, scope: Scope::Repo }
}

fn timed_command(args: Vec<String>, secs: u64) -> (c: GitCommand)
    ensures
        c@ == timed_cmd(views(args@), secs),
{
    GitCommand { args, timeout_secs: Some(secs), scope: Scope::Repo }
}

fn global_command(args: Vec<String>) -> (c: GitCommand)
    ensures
        c@ == global_cmd(views(args@)),
{
    GitCommand { args, timeout_secs: None, scope: Scope::Global }
}

// ------------------------------------------------------- command meanings

pub open spec fn status_cmd() -> CommandView {
    repo_cmd(seq!["status"@, "--porcelain"@])
}

pub open spec fn fetch_cmd() -> CommandView {
    timed_cmd(seq!["fetch"@, "--quiet"@], FETCH_TIMEOUT_SECS)
}

pub open spec fn upstream_cmd() -> CommandView {
    repo_cmd(seq!["rev-parse"@, "--abbrev-ref"@, "@{upstream}"@])
}

pub open spec fn counts_cmd() -> CommandView {
    repo_cmd(seq!["rev-list"@, "--left-right"@, "--count"@, "HEAD...@{upstream}"@])
}

pub open spec fn remote_list_cmd() -> CommandView {
    repo_cmd(seq!["remote"@])
}

pub open spec fn current_branch_cmd() -> CommandView {
    repo_cmd(seq!["symbolic-ref"@, "--short"@, "-q"@, "HEAD"@])
}

pub open spec fn ls_remote_cmd(remote: Seq<char>, branch: Seq<char>) -> CommandView {
    timed_cmd(
        seq!["ls-remote"@, "--exit-code"@, "--heads"@, remote, branch],
        SHORT_OP_TIMEOUT_SECS,
    )
}

pub open spec fn add_all_cmd() -> CommandView {
    repo_cmd(seq!["add"@, "-A"@, "--"@, "."@])
}

pub open spec fn commit_cmd(msg: Seq<char>) -> CommandView {
    timed_cmd(seq!["commit"@, "--no-verify"@, "--quiet"@, "-m"@, msg], SHORT_OP_TIMEOUT_SECS)
}

pub open spec fn pull_cmd() -> CommandView {
    timed_cmd(seq!["pull"@, "--no-rebase"@, "--quiet"@], GIT_OP_TIMEOUT_SECS)
}

pub open spec fn push_cmd() -> CommandView {
    timed_cmd(seq!["push"@, "--quiet"@], GIT_OP_TIMEOUT_SECS)
}

pub open spec fn push_upstream_cmd(remote: Seq<char>) -> CommandView {
    timed_cmd(seq!["push"@, "--quiet"@, "-u"@, remote, "HEAD"@], GIT_OP_TIMEOUT_SECS)
}

pub open spec fn set_upstream_cmd(remote: Seq<char>, branch: Seq<char>) -> CommandView {
    repo_cmd(seq!["branch"@, "--set-upstream-to="@ + remote + "/"@ + branch])
}

pub open spec fn conflicted_cmd() -> CommandView {
    repo_cmd(seq!["diff"@, "--name-only"@, "--diff-filter=U"@, "-z"@])
}

pub open spec fn checkout_ours_cmd(file: Seq<char>) -> CommandView {
    repo_cmd(seq!["checkout"@, "--ours"@, "--"@, file])
}

pub open spec fn add_file_cmd(file: Seq<char>) -> CommandView {
    repo_cmd(seq!["add"@, "--"@, file])
}

pub open spec fn rm_file_cmd(file: Seq<char>) -> CommandView {
    repo_cmd(seq!["rm"@, "-f"@, "--quiet"@, "--"@, file])
}

pub open spec fn stage_spec(stage: u8, file: Seq<char>) -> Seq<char> {
    ":"@ + dec(stage as nat) + ":"@ + file
}

pub open spec fn show_stage_cmd(stage: u8, file: Seq<char>) -> CommandView {
    repo_cmd(seq!["show"@, stage_spec(stage, file)])
}

pub open spec fn cat_file_cmd(spec: Seq<char>) -> CommandView {
    repo_cmd(seq!["cat-file"@, "-e"@, spec])
}

pub open spec fn merge_abort_cmd() -> CommandView {
    repo_cmd(seq!["merge"@, "--abort"@])
}

pub open spec fn config_get_cmd(key: Seq<char>) -> CommandView {
    repo_cmd(seq!["config"@, key])
}

pub open spec fn config_set_cmd(key: Seq<char>, value: Seq<char>) -> CommandView {
    repo_cmd(seq!["config"@, key, value])
}

pub open spec fn global_get_cmd(key: Seq<char>) -> CommandView {
    global_cmd(seq!["config"@, "--global"@, key])
}

pub open spec fn log_cmd(n: nat) -> CommandView {
    repo_cmd(
        seq![
            "log"@,
            "--all"@,
            "-n"@,
            dec(n),
            "--format=%cd|%s"@,
            "--date=format:%d/%m %H:%M"@,
        ],
    )
}

pub open spec fn safe_list_cmd() -> CommandView {
    global_cmd(seq!["config"@, "--global"@, "--get-all"@, "safe.directory"@])
}

pub open spec fn safe_add_cmd(repo: Seq<char>) -> CommandView {
    global_cmd(seq!["config"@, "--global"@, "--add"@, "safe.directory"@, repo])
}

pub open spec fn ls_files_cmd(dir: Seq<char>) -> CommandView {
    repo_cmd(seq!["ls-files"@, "--"@, dir])
}

pub open spec fn untrack_cmd(dir: Seq<char>) -> CommandView {
    repo_cmd(seq!["rm"@, "-r"@, "--cached"@, "--quiet"@, "--"@, dir])
}

// ---------------------------------------------------------- output meanings

/// `(ahead, behind)` read from `git rev-list --left-right --count`: the two
/// whitespace-separated numbers, 0 for one that does not parse, `(0, 0)`
/// unless there are exactly two.
pub open spec fn counts_of(out: Seq<char>) -> (u32, u32) {
    let parts = tokens(Sep::Whitespace, trim(out));
    if parts.len() == 2 {
        (num_or_zero(parts[0]), num_or_zero(parts[1]))
    } else {
        (0, 0)
    }
}

pub open spec fn num_or_zero(s: Seq<char>) -> u32 {
    match parse_unsigned(s, u32::MAX as nat) {
        Some(n) => n as u32,
        None => 0,
    }
}

/// The first line of `git remote`.
pub open spec fn first_line(out: Seq<char>) -> Option<Seq<char>> {
    if lines(out).len() > 0 {
        Some(lines(out)[0])
    } else {
        None
    }
}

/// Entries `(date, subject)` of `git log --format=%cd|%s`: each line split at
/// its first `'|'`; lines without one are skipped.
pub open spec fn log_entries(ls: Seq<Seq<char>>) -> Seq<(Seq<char>, Seq<char>)>
    decreases ls.len(),
{
    if ls.len() == 0 {
        seq![]
    } else {
        let rest = log_entries(ls.drop_last());
        match split_once(ls.last(), '|') {
            Some(p) => rest.push(p),
            None => rest,
        }
    }
}

pub open spec fn entry_views(v: Seq<(String, String)>) -> Seq<(Seq<char>, Seq<char>)> {
    v.map_values(|p: (String, String)| (p.0@, p.1@))
}

/// The value of a global config key: the trimmed output, empty when git
/// failed.
pub open spec fn config_value(r: Result<Seq<char>, Seq<char>>) -> Seq<char> {
    match r {
        Ok(s) => trim(s),
        Err(_) => seq![],
    }
}

/// Some line of `listed`, once trimmed, is `value`.
pub open spec fn has_trimmed_line(listed: Seq<char>, value: Seq<char>) -> bool {
    exists|i: int| 0 <= i < lines(listed).len() && trim(#[trigger] lines(listed)[i]) == value
}

/// Some line of `content` is exactly `value`.
pub open spec fn has_line(content: Seq<char>, value: Seq<char>) -> bool {
    exists|i: int| 0 <= i < lines(content).len() && #[trigger] lines(content)[i] == value
}

/// Whether the repository must be added to the global `safe.directory`
/// list: neither `*` nor the repository path is listed.
pub open spec fn needs_safe_entry(listed: Seq<char>, repo: Seq<char>) -> bool {
    !has_trimmed_line(listed, "*"@) && !has_trimmed_line(listed, repo)
}

/// The exclude pattern that keeps the conflict folder out of git: `/<dir>/`.
pub open spec fn exclude_pattern(dir: Seq<char>) -> Seq<char> {
    "/"@ + dir + "/"@
}

/// The conflict folder's pattern is added at most once: appended as a line
/// to an exclude file that is empty or ends with a line break, it is then a
/// line of the file, so `ensure_conflict_dir_ignored` asks for nothing more.
pub proof fn lemma_exclude_added_once(content: Seq<char>, dir: Seq<char>)
    requires
        content.len() == 0 || content.last() == '\n',
        forall|i: int| 0 <= i < dir.len() ==> dir[i] != '\n',
    ensures
        has_line(content + exclude_pattern(dir) + seq!['\n'], exclude_pattern(dir)),
{
    let p = exclude_pattern(dir);
    reveal_strlit("/");
    assert forall|i: int| 0 <= i < p.len() implies p[i] != '\n' by {
        if i == 0 || i == p.len() - 1 {
        } else {
            assert(p[i] == dir[i - 1]);
        }
    }
    crate::text::lemma_one_line(seq![], p);
    assert(seq![] + p =~= p);
    assert(p.last() == '/');
    let tail = p + seq!['\n'];
    let all = content + p + seq!['\n'];
    assert(all =~= content + tail);
    if content.len() == 0 {
        assert(all =~= tail);
        assert(lines(all)[0] == p);
    } else {
        crate::text::lemma_lines_append(seq![], content, tail);
        let k = lines(content).len() as int;
        assert(lines(all)[k] == p);
    }
}

/// The repository's `safe.directory` entry is added at most once: once the
/// listing (empty or ending with a line break) holds the repository's path
/// as a line, no entry is needed any more. The path has no line break and
/// no whitespace at its ends, as the listing trims its lines.
pub proof fn lemma_safe_entry_added_once(listed: Seq<char>, repo: Seq<char>)
    requires
        listed.len() == 0 || listed.last() == '\n',
        repo.len() > 0,
        !crate::text::is_ws(repo[0]),
        !crate::text::is_ws(repo.last()),
        forall|i: int| 0 <= i < repo.len() ==> repo[i] != '\n',
    ensures
        !needs_safe_entry(listed + repo + seq!['\n'], repo),
{
    assert(crate::text::trim_start(repo) == repo);
    assert(crate::text::trim_end(repo) == repo);
    crate::text::lemma_one_line(seq![], repo);
    assert(seq![] + repo =~= repo);
    assert(crate::text::strip_cr(repo) == repo);
    let tail = repo + seq!['\n'];
    let all = listed + repo + seq!['\n'];
    assert(all =~= listed + tail);
    if listed.len() == 0 {
        assert(all =~= tail);
        assert(trim(lines(all)[0]) == repo);
    } else {
        crate::text::lemma_lines_append(seq![], listed, tail);
        let k = lines(listed).len() as int;
        assert(trim(lines(all)[k]) == repo);
    }
}

/// The commit counts are read back: for any counts `ahead` and `behind`,
/// the output `git rev-list --left-right --count` writes for them (the two
/// numbers, a tab between, a line break after) reads as `(ahead, behind)`,
/// whatever their number of digits.
pub proof fn lemma_counts_read_back(ahead: u32, behind: u32)
    ensures
        counts_of(dec(ahead as nat) + seq!['\t'] + dec(behind as nat) + seq!['\n']) == (ahead, behind),
{
    let d1 = dec(ahead as nat);
    let d2 = dec(behind as nat);
    crate::text::lemma_trim_dec(ahead as nat);
    crate::text::lemma_trim_dec(behind as nat);
    crate::text::lemma_parse_dec(ahead as nat, u32::MAX as nat);
    crate::text::lemma_parse_dec(behind as nat, u32::MAX as nat);
    let t = d1 + seq!['\t'] + d2;
    let s = t + seq!['\n'];
    assert(s[0] == d1[0]);
    assert(crate::text::trim_start(s) == s);
    assert(s.last() == '\n');
    assert(crate::text::is_ws('\n'));
    assert(s.drop_last() =~= t);
    assert(t.last() == d2[d2.len() - 1]);
    assert(crate::text::trim_end(t) == t);
    assert(crate::text::trim_end(s) == t);
    assert(trim(s) == t);
    assert(crate::text::is_ws('\t'));
    assert forall|i: int| 0 <= i < d1.len() implies !crate::text::is_sep(Sep::Whitespace, #[trigger] d1[i]) by {}
    assert forall|i: int| 0 <= i < d2.len() implies !crate::text::is_sep(Sep::Whitespace, #[trigger] d2[i]) by {}
    crate::text::lemma_tokens_two(Sep::Whitespace, d1, '\t', d2);
    assert(tokens(Sep::Whitespace, trim(s)) == seq![d1, d2]);
}

fn any_trimmed_line_eq(listed: &str, value: &str) -> (r: bool)
    ensures
        r == has_trimmed_line(listed@, value@),
{
    let ls = split_lines(listed);
    let mut i: usize = 0;
    while i < ls.len()
        invariant
            views(ls@) == lines(listed@),
            i <= ls@.len(),
            forall|j: int| 0 <= j < i ==> trim(#[trigger] lines(listed@)[j]) != value@,
        decreases ls.len() - i,
    {
        let t = trim_str(ls[i].as_str());
        assert(ls@[i as int]@ == lines(listed@)[i as int]);
        if crate::text::str_eq(t.as_str(), value) {
            return true;
        }
        i = i + 1;
    }
    false
}

fn any_line_eq(content: &str, value: &str) -> (r: bool)
    ensures
        r == has_line(content@, value@),
{
    let ls = split_lines(content);
    let mut i: usize = 0;
    while i < ls.len()
        invariant
            views(ls@) == lines(content@),
            i <= ls@.len(),
            forall|j: int| 0 <= j < i ==> #[trigger] lines(content@)[j] != value@,
        decreases ls.len() - i,
    {
        assert(ls@[i as int]@ == lines(content@)[i as int]);
        if crate::text::str_eq(ls[i].as_str(), value) {
            return true;
        }
        i = i + 1;
    }
    false
}

// ---------------------------------------------------------------- the repo

/// A repository, by its path.
pub struct Git {
    pub repo: String,
}

impl Git {
    pub fn new(repo: String) -> (g: Git)
        ensures
            g.repo@ == repo@,
    {
        Git { repo }
    }

    /// The process that runs `cmd` for this repository.
    pub fn invocation(&self, cmd: &GitCommand, unix: bool) -> (r: Invocation)
        ensures
            r@ == invocation_of(self.repo@, cmd@, unix),
    {
        if cmd.scope == Scope::Global {
            let args = crate::text::clone_strings(&cmd.args);
            let env: Vec<(String, String)> = Vec::new();
            assert(pair_views(env@) =~= seq![]);
            return Invocation { program: owned("git"), args, env };
        }
        let mut args: Vec<String> = Vec::new();
        let timed = match cmd.timeout_secs {
            Some(_) => unix,
            None => false,
        };
        let program = if timed {
            let secs = cmd.timeout_secs.unwrap();
            let mut limit = dec_string(secs);
            limit.append("s");
            args.push(limit);
            args.push(owned("git"));
            owned("timeout")
        } else {
            owned("git")
        };
        let ghost prefix = views(args@);
        let base = strings4("-C", self.repo.as_str(), "-c", "core.hooksPath=/dev/null");
        extend_strings(&mut args, &base);
        extend_strings(&mut args, &cmd.args);
        let r = Invocation { program, args, env: env_pairs() };
        proof {
            if timed {
                assert(prefix =~= seq![dec(cmd.timeout_secs->0 as nat) + "s"@, "git"@]);
            } else {
                assert(prefix =~= seq![]);
            }
            assert(views(r.args@) =~= prefix + base_args(self.repo@) + cmd@.args);
        }
        r
    }

    /// What `cmd`'s outcome gives (`Ok` with the output, or `Err` with a
    /// message).
    pub fn run_result(cmd: &GitCommand, unix: bool, outcome: &RunOutcome) -> (r: Result<
        String,
        String,
    >)
        ensures
            result_views(r) == run_result(cmd@, unix, outcome@),
    {
        let timed = cmd.scope == Scope::Repo && cmd.timeout_secs.is_some() && unix;
        match outcome {
            RunOutcome::SpawnFailed(e) => {
                let mut m = if timed {
                    owned("timeout git ")
                } else {
                    owned("git ")
                };
                let joined = join_strings(&cmd.args, " ");
                m.append(joined.as_str());
                m.append(": ");
                m.append(e.as_str());
                Err(m)
            },
            RunOutcome::Exited { code, stdout, stderr } => {
                let is124 = match code {
                    Some(c) => *c == 124,
                    None => false,
                };
                let is0 = match code {
                    Some(c) => *c == 0,
                    None => false,
                };
                if timed && is124 {
                    let mut m = owned("Таймаут ");
                    let secs = dec_string(cmd.timeout_secs.unwrap());
                    m.append(secs.as_str());
                    m.append("с");
                    Err(m)
                } else if is0 {
                    Ok(lossy_text(stdout))
                } else {
                    Err(lossy_text(stderr))
                }
            },
        }
    }

    /// `is_repo`: the question whether the repository holds a `.git` folder.
    pub fn is_repo(&self) -> (r: crate::machine::Request)
        ensures
            r@ == crate::machine::RequestView::IsDir(crate::path::joined(self.repo@, ".git"@)),
    {
        crate::machine::Request::IsDir(crate::path::path_join(self.repo.as_str(), ".git"))
    }

    /// `git status --porcelain`.
    pub fn status_porcelain(&self) -> (c: GitCommand)
        ensures
            c@ == status_cmd(),
    {
        repo_command(strings2("status", "--porcelain"))
    }

    /// `git fetch --quiet`, with the fetch time limit.
    pub fn fetch(&self) -> (c: GitCommand)
        ensures
            c@ == fetch_cmd(),
    {
        timed_command(strings2("fetch", "--quiet"), FETCH_TIMEOUT_SECS)
    }

    /// The first command of `ahead_behind`: does the branch have an upstream?
    pub fn ahead_behind(&self) -> (c: GitCommand)
        ensures
            c@ == upstream_cmd(),
    {
        repo_command(strings3("rev-parse", "--abbrev-ref", "@{upstream}"))
    }

    /// The second command of `ahead_behind`: count the commits on each side.
    pub fn ahead_behind_counts(&self) -> (c: GitCommand)
        ensures
            c@ == counts_cmd(),
    {
        repo_command(strings4("rev-list", "--left-right", "--count", "HEAD...@{upstream}"))
    }

    /// `(ahead, behind)` from the counting command's result; `(0, 0)` when it
    /// failed.
    pub fn ahead_behind_result(counted: &Result<String, String>) -> (r: (u32, u32))
        ensures
            r == (match result_views(*counted) {
                Ok(out) => counts_of(out),
                Err(_) => (0u32, 0u32),
            }),
    {
        match counted {
            Err(_) => (0, 0),
            Ok(out) => {
                let t = trim_str(out.as_str());
                let parts = split_tokens(t.as_str(), Sep::Whitespace);
                if parts.len() == 2 {
                    let a = match parse_u32(parts[0].as_str()) {
                        Some(n) => n,
                        None => 0,
                    };
                    let b = match parse_u32(parts[1].as_str()) {
                        Some(n) => n,
                        None => 0,
                    };
                    assert(views(parts@)[0] == parts@[0]@);
                    assert(views(parts@)[1] == parts@[1]@);
                    (a, b)
                } else {
                    (0, 0)
                }
            },
        }
    }

    /// `git rev-parse --abbrev-ref @{upstream}`: succeeds when there is an
    /// upstream.
    pub fn has_upstream(&self) -> (c: GitCommand)
        ensures
            c@ == upstream_cmd(),
    {
        repo_command(strings3("rev-parse", "--abbrev-ref", "@{upstream}"))
    }

    /// `git remote`.
    pub fn first_remote(&self) -> (c: GitCommand)
        ensures
            c@ == remote_list_cmd(),
    {
        repo_command(strings1("remote"))
    }

    /// The first remote: the first line of the output.
    pub fn first_remote_result(r: &Result<String, String>) -> (o: Option<String>)
        ensures
            match o {
                Some(s) => result_views(*r) matches Ok(out) && first_line(out) == Some(s@),
                None => result_views(*r) matches Ok(out) ==> first_line(out) is None,
            },
    {
        match r {
            Err(_) => None,
            Ok(out) => {
                let ls = split_lines(out.as_str());
                if ls.len() > 0 {
                    assert(views(ls@)[0] == ls@[0]@);
                    Some(ls[0].clone())
                } else {
                    None
                }
            },
        }
    }

    /// `git symbolic-ref --short -q HEAD`.
    pub fn current_branch(&self) -> (c: GitCommand)
        ensures
            c@ == current_branch_cmd(),
    {
        repo_command(strings4("symbolic-ref", "--short", "-q", "HEAD"))
    }

    /// The current branch: the trimmed output.
    pub fn current_branch_result(r: &Result<String, String>) -> (o: Option<String>)
        ensures
            match o {
                Some(s) => result_views(*r) matches Ok(out) && s@ == trim(out),
                None => r.is_err(),
            },
    {
        match r {
            Err(_) => None,
            Ok(out) => Some(trim_str(out.as_str())),
        }
    }

    /// `git ls-remote --exit-code --heads <remote> <branch>`, with the short
    /// time limit; it succeeds when the branch exists on the remote.
    pub fn remote_branch_exists(&self, remote: &str, branch: &str) -> (c: GitCommand)
        ensures
            c@ == ls_remote_cmd(remote@, branch@),
    {
        timed_command(
            strings5("ls-remote", "--exit-code", "--heads", remote, branch),
            SHORT_OP_TIMEOUT_SECS,
        )
    }

    /// `git add -A -- .`.
    pub fn add_all(&self) -> (c: GitCommand)
        ensures
            c@ == add_all_cmd(),
    {
        repo_command(strings4("add", "-A", "--", "."))
    }

    /// `git commit --no-verify --quiet -m <msg>`, with the short time limit.
    pub fn commit(&self, msg: &str) -> (c: GitCommand)
        ensures
            c@ == commit_cmd(msg@),
    {
        timed_command(
            strings5("commit", "--no-verify", "--quiet", "-m", msg),
            SHORT_OP_TIMEOUT_SECS,
        )
    }

    /// `git pull --no-rebase --quiet`, with the long time limit.
    pub fn pull(&self) -> (c: GitCommand)
        ensures
            c@ == pull_cmd(),
    {
        timed_command(strings3("pull", "--no-rebase", "--quiet"), GIT_OP_TIMEOUT_SECS)
    }

    /// `git push --quiet`, with the long time limit.
    pub fn push(&self) -> (c: GitCommand)
        ensures
            c@ == push_cmd(),
    {
        timed_command(strings2("push", "--quiet"), GIT_OP_TIMEOUT_SECS)
    }

    /// `git push --quiet -u <remote> HEAD`, with the long time limit.
    pub fn push_set_upstream(&self, remote: &str) -> (c: GitCommand)
        ensures
            c@ == push_upstream_cmd(remote@),
    {
        timed_command(strings5("push", "--quiet", "-u", remote, "HEAD"), GIT_OP_TIMEOUT_SECS)
    }

    /// `git branch --set-upstream-to=<remote>/<branch>`.
    pub fn set_upstream_to(&self, remote: &str, branch: &str) -> (c: GitCommand)
        ensures
            c@ == set_upstream_cmd(remote@, branch@),
    {
        let mut flag = cat("--set-upstream-to=", remote);
        flag.append("/");
        flag.append(branch);
        repo_command(strings2("branch", flag.as_str()))
    }

    /// `git diff --name-only --diff-filter=U -z`.
    pub fn conflicted_files(&self) -> (c: GitCommand)
        ensures
            c@ == conflicted_cmd(),
    {
        repo_command(strings4("diff", "--name-only", "--diff-filter=U", "-z"))
    }

    /// The conflicted files: the non-empty NUL-separated names; none when git
    /// failed.
    pub fn conflicted_files_result(r: &Result<String, String>) -> (v: Vec<String>)
        ensures
            views(v@) == (match result_views(*r) {
                Ok(out) => tokens(Sep::Char('\0'), out),
                Err(_) => seq![],
            }),
    {
        match r {
            Err(_) => {
                let v: Vec<String> = Vec::new();
                assert(views(v@) =~= seq![]);
                v
            },
            Ok(out) => split_tokens(out.as_str(), Sep::Char('\0')),
        }
    }

    /// `git checkout --ours -- <file>`.
    pub fn checkout_ours(&self, file: &str) -> (c: GitCommand)
        ensures
            c@ == checkout_ours_cmd(file@),
    {
        repo_command(strings4("checkout", "--ours", "--", file))
    }

    /// `git add -- <file>`.
    pub fn add_file(&self, file: &str) -> (c: GitCommand)
        ensures
            c@ == add_file_cmd(file@),
    {
        repo_command(strings3("add", "--", file))
    }

    /// `git rm -f --quiet -- <file>`.
    pub fn rm_file(&self, file: &str) -> (c: GitCommand)
        ensures
            c@ == rm_file_cmd(file@),
    {
        repo_command(strings5("rm", "-f", "--quiet", "--", file))
    }

    /// `git show :<stage>:<file>`.
    pub fn show_stage(&self, stage: u8, file: &str) -> (c: GitCommand)
        ensures
            c@ == show_stage_cmd(stage, file@),
    {
        let mut spec = owned(":");
        let n = dec_string(stage as u64);
        spec.append(n.as_str());
        spec.append(":");
        spec.append(file);
        repo_command(strings2("show", spec.as_str()))
    }

    /// The staged content: the raw standard output when `git show` exited
    /// with code 0.
    pub fn show_stage_result(outcome: &RunOutcome) -> (r: Option<Vec<u8>>)
        ensures
            match outcome@ {
                OutcomeView::Exited { code, stdout, .. } => if code == Some(0i32) {
                    r matches Some(b) && b@ == stdout
                } else {
                    r is None
                },
                OutcomeView::SpawnFailed(_) => r is None,
            },
    {
        match outcome {
            RunOutcome::SpawnFailed(_) => None,
            RunOutcome::Exited { code, stdout, .. } => {
                let ok = match code {
                    Some(c) => *c == 0,
                    None => false,
                };
                if ok {
                    Some(stdout.clone())
                } else {
                    None
                }
            },
        }
    }

    /// `git cat-file -e <spec>`: succeeds when the object exists.
    pub fn cat_file_exists(&self, spec: &str) -> (c: GitCommand)
        ensures
            c@ == cat_file_cmd(spec@),
    {
        repo_command(strings3("cat-file", "-e", spec))
    }

    /// `git merge --abort`.
    pub fn merge_abort(&self) -> (c: GitCommand)
        ensures
            c@ == merge_abort_cmd(),
    {
        repo_command(strings2("merge", "--abort"))
    }

    /// `git log --all -n <n> --format=%cd|%s --date=format:%d/%m %H:%M`.
    pub fn log_recent(&self, n: u64) -> (c: GitCommand)
        ensures
            c@ == log_cmd(n as nat),
    {
        let count = dec_string(n);
        repo_command(
            strings6(
                "log",
                "--all",
                "-n",
                count.as_str(),
                "--format=%cd|%s",
                "--date=format:%d/%m %H:%M",
            ),
        )
    }

    /// The `(date, subject)` entries of the log; none when git failed.
    pub fn log_recent_result(r: &Result<String, String>) -> (v: Vec<(String, String)>)
        ensures
            entry_views(v@) == log_entries(lines(output_or_empty(result_views(*r)))),
    {
        let out = match r {
            Ok(s) => s.clone(),
            Err(_) => String::new(),
        };
        let ls = split_lines(out.as_str());
        let mut v: Vec<(String, String)> = Vec::new();
        let mut i: usize = 0;
        assert(views(ls@).take(0) =~= seq![]);
        while i < ls.len()
            invariant
                views(ls@) == lines(output_or_empty(result_views(*r))),
                i <= ls@.len(),
                entry_views(v@) == log_entries(views(ls@).take(i as int)),
            decreases ls.len() - i,
        {
            let ghost lv = views(ls@);
            assert(lv.take(i + 1).drop_last() =~= lv.take(i as int));
            assert(lv.take(i + 1).last() == ls@[i as int]@);
            let ghost before = v@;
            match split_once_str(ls[i].as_str(), '|') {
                Some(p) => {
                    v.push(p);
                    assert(entry_views(v@) =~= entry_views(before).push((p.0@, p.1@)));
                },
                None => {},
            }
            i = i + 1;
        }
        assert(views(ls@).take(ls@.len() as int) =~= views(ls@));
        v
    }

    /// `git config --global --get-all safe.directory`, outside the repository.
    pub fn ensure_safe_directory(&self) -> (c: GitCommand)
        ensures
            c@ == safe_list_cmd(),
    {
        global_command(strings4("config", "--global", "--get-all", "safe.directory"))
    }

    /// The command that adds the repository to `safe.directory`, when the
    /// listed entries hold neither `*` nor the repository.
    pub fn ensure_safe_directory_result(&self, listed: &Result<String, String>) -> (r: Option<
        GitCommand,
    >)
        ensures
            match r {
                Some(c) => needs_safe_entry(output_or_empty(result_views(*listed)), self.repo@)
                    && c@ == safe_add_cmd(self.repo@),
                None => !needs_safe_entry(output_or_empty(result_views(*listed)), self.repo@),
            },
    {
        let vals = match listed {
            Ok(s) => s.clone(),
            Err(_) => String::new(),
        };
        if any_trimmed_line_eq(vals.as_str(), "*") {
            return None;
        }
        if any_trimmed_line_eq(vals.as_str(), self.repo.as_str()) {
            return None;
        }
        Some(
            global_command(
                strings5("config", "--global", "--add", "safe.directory", self.repo.as_str()),
            ),
        )
    }

    /// The line to append to `.git/info/exclude` so that the conflict folder
    /// is ignored, when `content` (the file's text) does not hold it yet.
    pub fn ensure_conflict_dir_ignored(content: &str, conflict_dir: &str) -> (r: Option<String>)
        ensures
            match r {
                Some(line) => line@ == exclude_pattern(conflict_dir@) && !has_line(
                    content@,
                    exclude_pattern(conflict_dir@),
                ),
                None => has_line(content@, exclude_pattern(conflict_dir@)),
            },
    {
        let pattern = cat3("/", conflict_dir, "/");
        if any_line_eq(content, pattern.as_str()) {
            None
        } else {
            Some(pattern)
        }
    }

    /// `git ls-files -- <dir>`.
    pub fn untrack_conflict_dir(&self, conflict_dir: &str) -> (c: GitCommand)
        ensures
            c@ == ls_files_cmd(conflict_dir@),
    {
        repo_command(strings3("ls-files", "--", conflict_dir))
    }

    /// The command that removes the folder from the index, when `ls-files`
    /// listed something in it.
    pub fn untrack_conflict_dir_result(conflict_dir: &str, listed: &Result<String, String>) -> (r:
        Option<GitCommand>)
        ensures
            match r {
                Some(c) => !all_ws(output_or_empty(result_views(*listed))) && c@ == untrack_cmd(
                    conflict_dir@,
                ),
                None => all_ws(output_or_empty(result_views(*listed))),
            },
    {
        let out = match listed {
            Ok(s) => s.clone(),
            Err(_) => String::new(),
        };
        if is_blank(out.as_str()) {
            None
        } else {
            Some(repo_command(strings6("rm", "-r", "--cached", "--quiet", "--", conflict_dir)))
        }
    }

    /// `git config <key>`, in the repository.
    pub fn config_get(&self, key: &str) -> (c: GitCommand)
        ensures
            c@ == config_get_cmd(key@),
    {
        repo_command(strings2("config", key))
    }

    /// `git config <key> <value>`, in the repository.
    pub fn config_set(&self, key: &str, value: &str) -> (c: GitCommand)
        ensures
            c@ == config_set_cmd(key@, value@),
    {
        repo_command(strings3("config", key, value))
    }
}

/// `git config --global <key>`, outside any repository.
pub fn read_global_config(key: &str) -> (c: GitCommand)
    ensures
        c@ == global_get_cmd(key@),
{
    global_command(strings3("config", "--global", key))
}

/// The value read by `read_global_config`: trimmed, empty when git failed.
pub fn read_global_config_result(r: &Result<String, String>) -> (v: String)
    ensures
        v@ == config_value(result_views(*r)),
{
    match r {
        Ok(s) => trim_str(s.as_str()),
        Err(_) => String::new(),
    }
}

} // verus!
