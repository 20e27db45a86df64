use ghqb::config::BwConfig;
use ghqb::config::default_config_content;
use ghqb::config::expand_tilde;
use ghqb::config::get_config_dir;
use ghqb::config::get_config_path;
use ghqb::config::get_root;
use ghqb::config::parse_bw_config;
use ghqb::config::parse_config;
use ghqb::error::GhbareError;

#[test]
fn test_expand_tilde_with_path() {
    let home = dirs::home_dir().unwrap();
    let home_str = home.to_str().unwrap();
    assert_eq!(expand_tilde("~/repos", Some(home_str)), home.join("repos").to_str().unwrap());
}

#[test]
fn test_expand_tilde_only() {
    let home = dirs::home_dir().unwrap();
    let home_str = home.to_str().unwrap();
    assert_eq!(expand_tilde("~", Some(home_str)), home_str);
}

#[test]
fn test_expand_absolute_path() {
    let home = dirs::home_dir().unwrap();
    let home_str = home.to_str().unwrap();
    assert_eq!(expand_tilde("/absolute/path", Some(home_str)), "/absolute/path");
}

#[test]
fn test_expand_tilde_without_home() {
    assert_eq!(expand_tilde("~/repos", None), "~/repos");
    assert_eq!(expand_tilde("~", None), "~");
}

#[test]
fn test_default_config_content_is_valid_toml() {
    let content = default_config_content();
    let config = parse_config(content);
    assert!(config.is_ok());
}

#[test]
fn test_default_config_content_round_trip() {
    let config = parse_config(default_config_content()).unwrap();
    assert_eq!(config.root, "~/repos");
    assert_eq!(config.clone_method, "ssh");
    assert!(config.post_clone_commands.contains("git fetch origin"));
    assert_eq!(config.suffix, None);
}

#[test]
fn test_parse_config_applies_defaults() {
    let config = parse_config("root = \"/srv/repos\"\n").unwrap();
    assert_eq!(config.root, "/srv/repos");
    assert_eq!(config.clone_method, "ssh");
    assert!(config.post_clone_commands.starts_with("echo 'gitdir: .bare' > .git"));
    assert_eq!(config.suffix, None);
}

#[test]
fn test_parse_config_reads_all_keys() {
    let text = "root = \"/srv/repos\"\nclone_method = \"https\"\npost_clone_commands = \"true\"\nsuffix = \".work\"\n";
    let config = parse_config(text).unwrap();
    assert_eq!(config.root, "/srv/repos");
    assert_eq!(config.clone_method, "https");
    assert_eq!(config.post_clone_commands, "true");
    assert_eq!(config.suffix, Some(".work".to_string()));
}

#[test]
fn test_parse_config_missing_root() {
    let result = parse_config("clone_method = \"ssh\"\n");
    match result {
        Err(GhbareError::ConfigParseError(_)) => {}
        other => panic!("expected a config parse error, got {:?}", other),
    }
}

#[test]
fn test_parse_config_invalid_toml() {
    let result = parse_config("root = ");
    match result {
        Err(GhbareError::ConfigParseError(_)) => {}
        other => panic!("expected a config parse error, got {:?}", other),
    }
}

#[test]
fn test_parse_bw_config_defaults() {
    let config = parse_bw_config("").unwrap();
    assert_eq!(config.base_branch, "main");
    assert_eq!(config.post_add_commands, "");
}

#[test]
fn test_parse_bw_config_reads_keys() {
    let config = parse_bw_config("base_branch = \"develop\"\npost_add_commands = \"direnv allow\"\n").unwrap();
    assert_eq!(config.base_branch, "develop");
    assert_eq!(config.post_add_commands, "direnv allow");
}

#[test]
fn test_parse_bw_config_invalid_toml() {
    let result = parse_bw_config("base_branch = [");
    assert!(result.is_err());
}

#[test]
fn test_bw_config_default() {
    let config = BwConfig::default();
    assert_eq!(config.base_branch, "main");
    assert_eq!(config.post_add_commands, "");
}

#[test]
fn test_get_config_dir_from_override() {
    let dir = get_config_dir(Some("/custom/config"), Some("/home/user")).unwrap();
    assert_eq!(dir, "/custom/config/ghqb");
}

#[test]
fn test_get_config_dir_from_home() {
    let dir = get_config_dir(None, Some("/home/user")).unwrap();
    assert_eq!(dir, "/home/user/.config/ghqb");
}

#[test]
fn test_get_config_dir_unresolvable() {
    let result = get_config_dir(None, None);
    match result {
        Err(GhbareError::ConfigNotFound(m)) => {
            assert_eq!(m, "Could not determine config directory");
        }
        other => panic!("expected a config-not-found error, got {:?}", other),
    }
}

#[test]
fn test_get_config_path() {
    assert_eq!(get_config_path("/home/user/.config/ghqb"), "/home/user/.config/ghqb/config.toml");
}

#[test]
fn test_get_root_expands_tilde() {
    let config = parse_config(default_config_content()).unwrap();
    let root = get_root(&config, Some("/home/user"));
    assert_eq!(root, "/home/user/repos");
}

#[test]
fn test_error_messages() {
    assert_eq!(
        GhbareError::ConfigNotFound("x".to_string()).message(),
        "Config not found: x"
    );
    assert_eq!(
        GhbareError::EditorNotFound.message(),
        "$EDITOR environment variable is not set"
    );
    assert_eq!(
        GhbareError::RepoRootNotFound.message(),
        "Repository root not found (no .bare directory)"
    );
    assert_eq!(
        GhbareError::WorktreeAlreadyExists("/w".to_string()).message(),
        "Worktree already exists: /w"
    );
    assert_eq!(GhbareError::CloneError("x".to_string()).message(), "Clone failed: x");
    assert_eq!(
        GhbareError::PostCloneCommandError("x".to_string()).message(),
        "Post clone command failed: x"
    );
    assert_eq!(
        GhbareError::RepositoryAlreadyExists("/p".to_string()).message(),
        "Repository already exists: /p"
    );
    assert_eq!(
        GhbareError::WorktreeError("x".to_string()).message(),
        "Worktree operation failed: x"
    );
    assert_eq!(GhbareError::IoError("x".to_string()).message(), "IO error: x");
    assert_eq!(
        GhbareError::ConfigParseError("x".to_string()).message(),
        "Failed to parse config: x"
    );
}
