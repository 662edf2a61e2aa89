use obsidian_sync::git::{Git, GitCommand, Scope};
use obsidian_sync::ops::{AheadBehind, IdentityCheck, OpNext};

fn run_identity(answers: &[Result<&str, &str>]) -> (Vec<(Vec<String>, Scope)>, Result<(), String>) {
    let g = Git::new("/v/notes".to_string());
    let (mut id, first) = g.ensure_identity();
    let mut asked: Vec<(Vec<String>, Scope)> = vec![(first.args.clone(), first.scope)];
    let mut i = 0;
    loop {
        let r = answers[i].map(|s| s.to_string()).map_err(|s| s.to_string());
        i += 1;
        match id.resume(&g, r) {
            OpNext::Run(c) => asked.push((c.args.clone(), c.scope)),
            OpNext::Done(res) => return (asked, res),
        }
    }
}

fn args(v: &[&str]) -> Vec<String> {
    v.iter().map(|s| s.to_string()).collect()
}

#[test]
fn identity_already_set_writes_nothing() {
    let (asked, res) = run_identity(&[Ok("Ann\n"), Ok("ann@example.org\n")]);
    assert_eq!(res, Ok(()));
    assert_eq!(asked, vec![(args(&["config", "user.name"]), Scope::Repo), (args(&["config", "user.email"]), Scope::Repo)]);
}

#[test]
fn blank_name_is_copied_from_the_global_config() {
    let (asked, res) = run_identity(&[Err("unset"), Ok("ann@example.org"), Ok(" Ann \n"), Ok("g@example.org\n"), Ok("")]);
    assert_eq!(res, Ok(()));
    assert_eq!(asked[2], (args(&["config", "--global", "user.name"]), Scope::Global));
    assert_eq!(asked[3], (args(&["config", "--global", "user.email"]), Scope::Global));
    assert_eq!(asked[4], (args(&["config", "user.name", "Ann"]), Scope::Repo));
    assert_eq!(asked.len(), 5);
}

#[test]
fn both_blank_are_copied() {
    let (asked, res) = run_identity(&[Ok("  "), Err("unset"), Ok("Ann"), Ok("g@x"), Ok(""), Ok("")]);
    assert_eq!(res, Ok(()));
    assert_eq!(asked[4].0, args(&["config", "user.name", "Ann"]));
    assert_eq!(asked[5].0, args(&["config", "user.email", "g@x"]));
}

#[test]
fn blank_email_only() {
    let (asked, res) = run_identity(&[Ok("Ann"), Ok(""), Ok("Global Ann"), Ok("g@x"), Ok("")]);
    assert_eq!(res, Ok(()));
    assert_eq!(asked[4].0, args(&["config", "user.email", "g@x"]));
    assert!(!asked.iter().any(|(a, _)| a.len() == 3 && a[1] == "user.name"));
}

#[test]
fn missing_global_identity_is_an_error() {
    let (_, res) = run_identity(&[Ok(""), Ok(""), Err("unset"), Ok("g@x")]);
    assert_eq!(res, Err("Git identity not configured".to_string()));
    let (_, res) = run_identity(&[Ok(""), Ok(""), Ok("Ann"), Ok("  ")]);
    assert_eq!(res, Err("Git identity not configured".to_string()));
}

#[test]
fn failed_write_is_reported() {
    let (_, res) = run_identity(&[Ok(""), Ok("e"), Ok("Ann"), Ok("g@x"), Err("locked")]);
    assert_eq!(res, Err("locked".to_string()));
}

#[test]
fn ahead_behind_without_upstream() {
    let g = Git::new("/v/notes".to_string());
    let (mut ab, first) = AheadBehind::start(&g);
    assert_eq!(first.args, args(&["rev-parse", "--abbrev-ref", "@{upstream}"]));
    match ab.resume(&g, Err("no upstream".to_string())) {
        OpNext::Done(p) => assert_eq!(p, (0, 0)),
        OpNext::Run(_) => panic!("no count without an upstream"),
    }
}

#[test]
fn ahead_behind_with_upstream() {
    let g = Git::new("/v/notes".to_string());
    let (mut ab, _) = AheadBehind::start(&g);
    let c: GitCommand = match ab.resume(&g, Ok("origin/main".to_string())) {
        OpNext::Run(c) => c,
        OpNext::Done(_) => panic!("expected the count"),
    };
    assert_eq!(c.args, args(&["rev-list", "--left-right", "--count", "HEAD...@{upstream}"]));
    match ab.resume(&g, Ok("4\t7\n".to_string())) {
        OpNext::Done(p) => assert_eq!(p, (4, 7)),
        OpNext::Run(_) => panic!("expected the result"),
    }
}
