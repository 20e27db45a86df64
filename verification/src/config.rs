//! Layered configuration resolution.
//!
//! The global config file is structured key/value text (TOML) with a
//! required `root` and optional `clone_method`, `post_clone_commands` and
//! `suffix` keys; the per-repository file has optional `base_branch` and
//! `post_add_commands`.  Reading the files, the environment and the home
//! directory happens outside the library; the functions here take those as
//! plain values and pin down defaulting, tilde expansion and path layout.

use crate::error::GhbareError;
use crate::text::has_prefix;
use crate::text::str_has_prefix;
use vstd::prelude::*;
use vstd::string::StrSliceExecFns;
use vstd::string::StringExecFns;

verus! {

/// The global configuration: repository root, clone method, post-clone
/// script text, and an optional directory-name suffix.
#[derive(Debug)]
pub struct Config {
    pub root: String,
    pub clone_method: String,
    pub post_clone_commands: String,
    pub suffix: Option<String>,
}

/// The per-repository configuration: the base branch new worktrees start
/// from, and post-add script text (empty means skip).
#[derive(Debug)]
pub struct BwConfig {
    pub base_branch: String,
    pub post_add_commands: String,
}

/// The base branch used when the per-repository config names none.
pub fn default_base_branch() -> (r: String)
    ensures
        r@ == "main"@,
{
    String::from_str("main")
}

impl Default for BwConfig {
    /// The all-defaults per-repository configuration: base branch `main`,
    /// no post-add commands.
    fn default() -> (r: Self)
        ensures
            r.base_branch@ == "main"@,
            r.post_add_commands@ == Seq::<char>::empty(),
    {
        BwConfig { base_branch: default_base_branch(), post_add_commands: String::new() }
    }
}

/// The clone method used when the global config names none.
pub fn default_clone_method() -> (r: String)
    ensures
        r@ == "ssh"@,
{
    String::from_str("ssh")
}

/// The post-clone script used when the global config names none: wire a
/// worktree-friendly `.git` file, set the bare remote's fetch refspec,
/// fetch, and check the remote default branch out as a worktree.
pub open spec fn default_post_clone_snippet() -> Seq<char> {
    "echo 'gitdir: .bare' > .git\ngit config --file .bare/config remote.origin.fetch '+refs/heads/*:refs/remotes/origin/*'\ngit fetch origin\nHEAD_BRANCH=$(git symbolic-ref refs/remotes/origin/HEAD 2>/dev/null | sed 's@^refs/remotes/origin/@@'); [ -n \"$HEAD_BRANCH\" ] && git worktree add \"$HEAD_BRANCH\" \"$HEAD_BRANCH\""@
}

/// The post-clone commands used when the global config names none.
pub fn default_post_clone_commands() -> (r: String)
    ensures
        r@ == default_post_clone_snippet(),
{
    String::from_str(
        "echo 'gitdir: .bare' > .git\ngit config --file .bare/config remote.origin.fetch '+refs/heads/*:refs/remotes/origin/*'\ngit fetch origin\nHEAD_BRANCH=$(git symbolic-ref refs/remotes/origin/HEAD 2>/dev/null | sed 's@^refs/remotes/origin/@@'); [ -n \"$HEAD_BRANCH\" ] && git worktree add \"$HEAD_BRANCH\" \"$HEAD_BRANCH\"",
    )
}

/// The documented template written when the config file is first created.
pub open spec fn default_config_template() -> Seq<char> {
    "# ghqb configuration file\n\n# Repository root directory (required)\nroot = \"~/repos\"\n\n# Default clone method: \"ssh\" or \"https\"\nclone_method = \"ssh\"\n\n# Commands to run after bare clone (executed in project directory, line by line)\npost_clone_commands = '''\necho 'gitdir: .bare' > .git\ngit config --file .bare/config remote.origin.fetch '+refs/heads/*:refs/remotes/origin/*'\ngit fetch origin\nHEAD_BRANCH=$(git symbolic-ref refs/remotes/origin/HEAD 2>/dev/null | sed 's@^refs/remotes/origin/@@'); [ -n \"$HEAD_BRANCH\" ] && git worktree add \"$HEAD_BRANCH\" \"$HEAD_BRANCH\"\n'''\n\n# Optional: suffix for cloned directory (e.g., \".work\" -> repo.work)\n# suffix = \".work\"\n"@
}

/// The built-in default config file content.
pub fn default_config_content() -> (r: &'static str)
    ensures
        r@ == default_config_template(),
{
    "# ghqb configuration file\n\n# Repository root directory (required)\nroot = \"~/repos\"\n\n# Default clone method: \"ssh\" or \"https\"\nclone_method = \"ssh\"\n\n# Commands to run after bare clone (executed in project directory, line by line)\npost_clone_commands = '''\necho 'gitdir: .bare' > .git\ngit config --file .bare/config remote.origin.fetch '+refs/heads/*:refs/remotes/origin/*'\ngit fetch origin\nHEAD_BRANCH=$(git symbolic-ref refs/remotes/origin/HEAD 2>/dev/null | sed 's@^refs/remotes/origin/@@'); [ -n \"$HEAD_BRANCH\" ] && git worktree add \"$HEAD_BRANCH\" \"$HEAD_BRANCH\"\n'''\n\n# Optional: suffix for cloned directory (e.g., \".work\" -> repo.work)\n# suffix = \".work\"\n"
}

/// Whether the text is a valid TOML document with a table at top level.
pub uninterp spec fn toml_parses(s: Seq<char>) -> bool;

/// The top-level string value under `key` in the TOML document `s`: `None`
/// when `s` does not parse, the key is absent, or its value is not a string.
pub uninterp spec fn toml_str_entry(s: Seq<char>, key: Seq<char>) -> Option<Seq<char>>;

/// Relies on `toml::Table`'s `FromStr` parse: whether the text is a valid
/// TOML document is a function of the text alone.
#[verifier::external_body]
fn toml_document_parses(content: &str) -> (r: bool)
    ensures
        r == toml_parses(content@),
{
    content.parse::<toml::Table>().is_ok()
}

/// Relies on `toml::Table`'s `FromStr` parse, `toml::map::Map::get` and
/// `toml::Value::as_str`: the top-level string value under `key`, a function
/// of the document text and the key alone.
#[verifier::external_body]
fn toml_string_value(content: &str, key: &str) -> (r: Option<String>)
    ensures
        match r {
            Some(v) => toml_str_entry(content@, key@) == Some(v@),
            None => toml_str_entry(content@, key@) is None,
        },
{
    match content.parse::<toml::Table>() {
        Ok(table) => match table.get(key) {
            Some(value) => value.as_str().map(|s| s.to_string()),
            None => None,
        },
        Err(_) => None,
    }
}

/// Parse the global config text.  Succeeds exactly when the text is valid
/// TOML and holds a string `root`; optional keys fall back to the
/// documented defaults.
pub fn parse_config(content: &str) -> (r: Result<Config, GhbareError>)
    ensures
        r is Ok <==> toml_parses(content@) && toml_str_entry(content@, "root"@) is Some,
        r matches Ok(c) ==> Some(c.root@) == toml_str_entry(content@, "root"@),
        r matches Ok(c) ==> c.clone_method@ == match toml_str_entry(content@, "clone_method"@) {
            Some(v) => v,
            None => "ssh"@,
        },
        r matches Ok(c) ==> c.post_clone_commands@ == match toml_str_entry(
            content@,
            "post_clone_commands"@,
        ) {
            Some(v) => v,
            None => default_post_clone_snippet(),
        },
        r matches Ok(c) ==> (match c.suffix {
            Some(s) => toml_str_entry(content@, "suffix"@) == Some(s@),
            None => toml_str_entry(content@, "suffix"@) is None,
        }),
        r matches Err(e) ==> e matches GhbareError::ConfigParseError(_),
{
    if !toml_document_parses(content) {
        return Err(GhbareError::ConfigParseError(String::from_str("invalid TOML document")));
    }
    let root = match toml_string_value(content, "root") {
        Some(v) => v,
        None => {
            return Err(
                GhbareError::ConfigParseError(
                    String::from_str("missing required string key: root"),
                ),
            );
        },
    };
    let clone_method = match toml_string_value(content, "clone_method") {
        Some(v) => v,
        None => default_clone_method(),
    };
    let post_clone_commands = match toml_string_value(content, "post_clone_commands") {
        Some(v) => v,
        None => default_post_clone_commands(),
    };
    let suffix = toml_string_value(content, "suffix");
    Ok(Config { root, clone_method, post_clone_commands, suffix })
}

/// Parse the per-repository config text.  Succeeds exactly when the text is
/// valid TOML; both keys fall back to their defaults.
pub fn parse_bw_config(content: &str) -> (r: Result<BwConfig, GhbareError>)
    ensures
        r is Ok <==> toml_parses(content@),
        r matches Ok(c) ==> c.base_branch@ == match toml_str_entry(content@, "base_branch"@) {
            Some(v) => v,
            None => "main"@,
        },
        r matches Ok(c) ==> c.post_add_commands@ == match toml_str_entry(
            content@,
            "post_add_commands"@,
        ) {
            Some(v) => v,
            None => Seq::<char>::empty(),
        },
        r matches Err(e) ==> e matches GhbareError::ConfigParseError(_),
{
    if !toml_document_parses(content) {
        return Err(GhbareError::ConfigParseError(String::from_str("invalid TOML document")));
    }
    let base_branch = match toml_string_value(content, "base_branch") {
        Some(v) => v,
        None => default_base_branch(),
    };
    let post_add_commands = match toml_string_value(content, "post_add_commands") {
        Some(v) => v,
        None => String::new(),
    };
    Ok(BwConfig { base_branch, post_add_commands })
}

/// Tilde expansion against a home directory the caller resolved: `~/rest`
/// becomes `home/rest`, a bare `~` becomes the home directory itself, and
/// anything else — or any path when no home directory is known — passes
/// through unchanged.
pub open spec fn expand_tilde_spec(path: Seq<char>, home: Option<Seq<char>>) -> Seq<char> {
    match home {
        Some(h) => if has_prefix(path, "~/"@) {
            h + "/"@ + path.skip(2)
        } else if path == "~"@ {
            h
        } else {
            path
        },
        None => path,
    }
}

/// Expand a leading tilde in `path` against `home`.
pub fn expand_tilde(path: &str, home: Option<&str>) -> (r: String)
    ensures
        r@ == expand_tilde_spec(path@, home.deep_view()),
{
    match home {
        Some(h) => {
            if str_has_prefix(path, "~/") {
                proof {
                    reveal_strlit("~/");
                }
                let n: usize = path.unicode_len();
                let mut out = String::from_str(h);
                out.append("/");
                out.append(path.substring_char(2, n));
                out
            } else if path.unicode_len() == 1 && path.get_char(0) == '~' {
                proof {
                    reveal_strlit("~");
                    assert(path@ =~= "~"@);
                }
                String::from_str(h)
            } else {
                proof {
                    reveal_strlit("~");
                    if path@ == "~"@ {
                        assert(path@.len() == 1 && path@[0] == '~');
                    }
                }
                String::from_str(path)
            }
        },
        None => String::from_str(path),
    }
}

/// The configuration directory: the environment override joined with
/// `ghqb`, else the home directory joined with `.config/ghqb`; with
/// neither available, the lookup fails.
pub fn get_config_dir(xdg_config_home: Option<&str>, home: Option<&str>) -> (r: Result<
    String,
    GhbareError,
>)
    ensures
        xdg_config_home matches Some(x) ==> r matches Ok(d) && d@ == x@ + "/ghqb"@,
        xdg_config_home is None ==> match home {
            Some(h) => r matches Ok(d) && d@ == h@ + "/.config/ghqb"@,
            None => r matches Err(e) && e matches GhbareError::ConfigNotFound(m) && m@
                == "Could not determine config directory"@,
        },
{
    match xdg_config_home {
        Some(x) => {
            let mut out = String::from_str(x);
            out.append("/ghqb");
            Ok(out)
        },
        None => match home {
            Some(h) => {
                let mut out = String::from_str(h);
                out.append("/.config/ghqb");
                Ok(out)
            },
            None => Err(
                GhbareError::ConfigNotFound(
                    String::from_str("Could not determine config directory"),
                ),
            ),
        },
    }
}

/// The config file's path beneath the resolved configuration directory.
pub fn get_config_path(config_dir: &str) -> (r: String)
    ensures
        r@ == config_dir@ + "/config.toml"@,
{
    let mut out = String::from_str(config_dir);
    out.append("/config.toml");
    out
}

/// The effective repository root: the configured root with its tilde
/// expanded against the caller's home directory.
pub fn get_root(config: &Config, home: Option<&str>) -> (r: String)
    ensures
        r@ == expand_tilde_spec(config.root@, home.deep_view()),
{
    expand_tilde(config.root.as_str(), home)
}

} // verus!
