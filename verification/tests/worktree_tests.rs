use ghqb::worktree::parse_worktree_list;
use ghqb::worktree::resolve_add_names;
use ghqb::worktree::worktree_add_args;
use ghqb::worktree::worktree_remove_args;

#[test]
fn test_parse_worktree_list_porcelain() {
    let output = "worktree /repos/proj/.bare\nbare\n\nworktree /repos/proj/main\nHEAD 0123abc\nbranch refs/heads/main\n";
    let paths = parse_worktree_list(output);
    assert_eq!(paths, vec!["/repos/proj/.bare", "/repos/proj/main"]);
}

#[test]
fn test_parse_worktree_list_empty() {
    let paths = parse_worktree_list("");
    assert!(paths.is_empty());
}

#[test]
fn test_parse_worktree_list_crlf() {
    let output = "worktree /w/one\r\nworktree /w/two\r\n";
    let paths = parse_worktree_list(output);
    assert_eq!(paths, vec!["/w/one", "/w/two"]);
}

#[test]
fn test_parse_worktree_list_ignores_other_lines() {
    let output = "branch refs/heads/main\ndetached\n";
    let paths = parse_worktree_list(output);
    assert!(paths.is_empty());
}

#[test]
fn test_worktree_add_args_existing_branch() {
    let args = worktree_add_args("/repos/proj/feature-x", "feature/x", "main", true);
    assert_eq!(args, vec!["worktree", "add", "/repos/proj/feature-x", "feature/x"]);
}

#[test]
fn test_worktree_add_args_new_branch() {
    let args = worktree_add_args("/repos/proj/feature-x", "feature/x", "main", false);
    assert_eq!(
        args,
        vec!["worktree", "add", "-b", "feature/x", "/repos/proj/feature-x", "main"]
    );
}

#[test]
fn test_worktree_remove_args() {
    assert_eq!(
        worktree_remove_args("/repos/proj/feature-x", false),
        vec!["worktree", "remove", "/repos/proj/feature-x"]
    );
    assert_eq!(
        worktree_remove_args("/repos/proj/feature-x", true),
        vec!["worktree", "remove", "--force", "/repos/proj/feature-x"]
    );
}

#[test]
fn test_resolve_add_names_explicit() {
    let (branch, dirname, base) =
        resolve_add_names(Some("feature/x"), "wip/0101-000000", Some("develop"), "main");
    assert_eq!(branch, "feature/x");
    assert_eq!(dirname, "feature-x");
    assert_eq!(base, "develop");
}

#[test]
fn test_resolve_add_names_generated() {
    let (branch, dirname, base) = resolve_add_names(None, "wip/0101-000000", None, "main");
    assert_eq!(branch, "wip/0101-000000");
    assert_eq!(dirname, "wip-0101-000000");
    assert_eq!(base, "main");
}
