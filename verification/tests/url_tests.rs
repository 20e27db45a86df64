use ghqb::error::GhbareError;
use ghqb::repo_url::RepoInfo;
use ghqb::repo_url::parse_repo_url;

#[test]
fn test_parse_short_url() {
    let info = parse_repo_url("github.com/user/repo").unwrap();
    assert_eq!(info.host, "github.com");
    assert_eq!(info.owner, "user");
    assert_eq!(info.repo, "repo");
}

#[test]
fn test_parse_short_url_with_git_suffix() {
    let info = parse_repo_url("github.com/user/repo.git").unwrap();
    assert_eq!(info.host, "github.com");
    assert_eq!(info.owner, "user");
    assert_eq!(info.repo, "repo");
}

#[test]
fn test_parse_ssh_url() {
    let info = parse_repo_url("git@github.com:user/repo.git").unwrap();
    assert_eq!(info.host, "github.com");
    assert_eq!(info.owner, "user");
    assert_eq!(info.repo, "repo");
}

#[test]
fn test_parse_https_url() {
    let info = parse_repo_url("https://github.com/user/repo").unwrap();
    assert_eq!(info.host, "github.com");
    assert_eq!(info.owner, "user");
    assert_eq!(info.repo, "repo");
}

#[test]
fn test_parse_https_url_with_git_suffix() {
    let info = parse_repo_url("https://github.com/user/repo.git").unwrap();
    assert_eq!(info.host, "github.com");
    assert_eq!(info.owner, "user");
    assert_eq!(info.repo, "repo");
}

#[test]
fn test_to_ssh_url() {
    let info = RepoInfo {
        host: "github.com".to_string(),
        owner: "user".to_string(),
        repo: "repo".to_string(),
    };
    assert_eq!(info.to_ssh_url(), "git@github.com:user/repo.git");
}

#[test]
fn test_to_https_url() {
    let info = RepoInfo {
        host: "github.com".to_string(),
        owner: "user".to_string(),
        repo: "repo".to_string(),
    };
    assert_eq!(info.to_https_url(), "https://github.com/user/repo.git");
}

#[test]
fn test_to_local_path() {
    let info = RepoInfo {
        host: "github.com".to_string(),
        owner: "user".to_string(),
        repo: "repo".to_string(),
    };
    assert_eq!(info.to_local_path(), "github.com/user/repo");
}

#[test]
fn test_invalid_url() {
    let result = parse_repo_url("invalid");
    assert!(result.is_err());
}

#[test]
fn test_parse_ssh_protocol_url() {
    let info = parse_repo_url("ssh://github.com/user/repo.git").unwrap();
    assert_eq!(info.host, "github.com");
    assert_eq!(info.owner, "user");
    assert_eq!(info.repo, "repo");
}

#[test]
fn test_parse_http_url() {
    let info = parse_repo_url("http://example.org/team/proj").unwrap();
    assert_eq!(info.host, "example.org");
    assert_eq!(info.owner, "team");
    assert_eq!(info.repo, "proj");
}

#[test]
fn test_parse_trims_whitespace() {
    let info = parse_repo_url("  git@gitlab.com:group/tool.git\n").unwrap();
    assert_eq!(info.host, "gitlab.com");
    assert_eq!(info.owner, "group");
    assert_eq!(info.repo, "tool");
}

#[test]
fn test_parse_short_url_too_many_segments() {
    let result = parse_repo_url("github.com/user/repo/extra");
    assert!(result.is_err());
}

#[test]
fn test_parse_scp_without_colon() {
    let result = parse_repo_url("git@github.com");
    assert!(result.is_err());
}

#[test]
fn test_parse_https_url_without_owner() {
    let result = parse_repo_url("https://github.com/onlyrepo");
    assert!(result.is_err());
}

#[test]
fn test_url_parse_error_carries_input() {
    let result = parse_repo_url("invalid");
    match result {
        Err(GhbareError::UrlParseError(s)) => assert_eq!(s, "invalid"),
        other => panic!("expected a URL parse error, got {:?}", other),
    }
}

#[test]
fn test_url_parse_error_message() {
    let err = GhbareError::UrlParseError("invalid".to_string());
    assert_eq!(err.message(), "Failed to parse repository URL: invalid");
}

#[test]
fn test_ssh_url_round_trip() {
    let info = RepoInfo {
        host: "gitlab.example.org".to_string(),
        owner: "team".to_string(),
        repo: "proj".to_string(),
    };
    let parsed = parse_repo_url(&info.to_ssh_url()).unwrap();
    assert_eq!(parsed, info);
}

#[test]
fn test_local_path_round_trip() {
    let info = RepoInfo {
        host: "gitlab.example.org".to_string(),
        owner: "team".to_string(),
        repo: "proj".to_string(),
    };
    let parsed = parse_repo_url(&info.to_local_path()).unwrap();
    assert_eq!(parsed, info);
}

#[test]
fn test_parse_https_url_with_port() {
    let info = parse_repo_url("https://github.com:443/user/repo.git").unwrap();
    assert_eq!(info.host, "github.com");
    assert_eq!(info.owner, "user");
    assert_eq!(info.repo, "repo");
}

#[test]
fn test_parse_ssh_protocol_url_with_user() {
    let info = parse_repo_url("ssh://git@github.com/user/repo.git").unwrap();
    assert_eq!(info.host, "github.com");
    assert_eq!(info.owner, "user");
    assert_eq!(info.repo, "repo");
}

#[test]
fn test_parse_scp_owner_with_slash() {
    let info = parse_repo_url("git@github.com:group/sub/repo.git").unwrap();
    assert_eq!(info.host, "github.com");
    assert_eq!(info.owner, "group");
    assert_eq!(info.repo, "sub/repo");
}
