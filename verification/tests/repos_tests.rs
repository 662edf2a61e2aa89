use obsidian_sync::repos::discover_repos;

fn v(items: &[&str]) -> Vec<String> {
    items.iter().map(|s| s.to_string()).collect()
}

#[test]
fn repositories_sorted_by_path() {
    assert_eq!(
        discover_repos(v(&["/v/work", "/v/archive/old", "/v/Notes", "/v/archive"])),
        v(&["/v/Notes", "/v/archive", "/v/archive/old", "/v/work"])
    );
}

#[test]
fn path_order_compares_components() {
    assert_eq!(discover_repos(v(&["/v/a-b", "/v/a/b"])), v(&["/v/a/b", "/v/a-b"]));
    assert_eq!(discover_repos(v(&["/v/б", "/v/z", "/v/a"])), v(&["/v/a", "/v/z", "/v/б"]));
}

#[test]
fn repeated_paths_listed_once() {
    assert_eq!(discover_repos(v(&["/v/b", "/v/a", "/v/b", "/v/a/"])), v(&["/v/a", "/v/b"]));
    assert_eq!(discover_repos(v(&["/v//x", "/v/x"])), v(&["/v//x"]));
}

#[test]
fn nothing_found() {
    assert_eq!(discover_repos(vec![]), Vec::<String>::new());
}

#[test]
fn roots_and_dots_order_as_path_components() {
    assert_eq!(discover_repos(v(&["a", "/a"])), v(&["/a", "a"]));
    assert_eq!(discover_repos(v(&["a", "./b"])), v(&["./b", "a"]));
    assert_eq!(discover_repos(v(&["../a", "./a"])), v(&["./a", "../a"]));
    assert_eq!(discover_repos(v(&["/v/./x", "/v/x"])), v(&["/v/./x"]));
    assert_eq!(discover_repos(v(&["/v/x/..", "/v/x"])), v(&["/v/x", "/v/x/.."]));
}

#[test]
fn listing_again_changes_nothing() {
    let once = discover_repos(v(&["/v/b", "/v/a", "/v/./b", "/v/c/..", "./x", "/v/a//"]));
    assert_eq!(once, v(&["/v/a", "/v/b", "/v/c/..", "./x"]));
    assert_eq!(discover_repos(once.clone()), once);
}
