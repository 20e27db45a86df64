use ghqb::naming::branch_to_dirname;
use ghqb::naming::generate_wip_branch_name;

#[test]
fn test_branch_to_dirname() {
    assert_eq!(branch_to_dirname("feature/000"), "feature-000");
    assert_eq!(branch_to_dirname("fix/bug-123"), "fix-bug-123");
    assert_eq!(branch_to_dirname("main"), "main");
    assert_eq!(branch_to_dirname("feature/sub/deep"), "feature-sub-deep");
}

#[test]
fn test_generate_wip_branch_name() {
    let name = generate_wip_branch_name(3, 14, 15, 9, 26);
    assert!(name.starts_with("wip/"));
    let timestamp = name.strip_prefix("wip/").unwrap();
    let parts: Vec<&str> = timestamp.split('-').collect();
    assert_eq!(parts.len(), 2);
    assert_eq!(parts[0].len(), 4);
    assert_eq!(parts[1].len(), 6);
}

#[test]
fn test_generate_wip_branch_name_exact() {
    assert_eq!(generate_wip_branch_name(3, 14, 15, 9, 26), "wip/0314-150926");
    assert_eq!(generate_wip_branch_name(12, 31, 23, 59, 59), "wip/1231-235959");
    assert_eq!(generate_wip_branch_name(1, 1, 0, 0, 0), "wip/0101-000000");
}

#[test]
fn test_branch_to_dirname_idempotent() {
    let once = branch_to_dirname("feature/sub/deep");
    let twice = branch_to_dirname(&once);
    assert_eq!(once, twice);
}

#[test]
fn test_branch_to_dirname_empty() {
    assert_eq!(branch_to_dirname(""), "");
}
