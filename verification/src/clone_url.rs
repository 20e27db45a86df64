//! The decision core of the clone subcommand: which clone URL to use, and
//! where below the root the project directory goes.

use crate::error::GhbareError;
use crate::repo_url::RepoInfo;
use crate::repo_url::https_url_of;
use crate::repo_url::local_path_of;
use crate::repo_url::ssh_url_of;
use vstd::prelude::*;
use vstd::string::StringExecFns;

verus! {

/// Choose the clone URL from the two method flags: both set is an error,
/// exactly one set picks that form, neither set defaults to SSH.
pub fn determine_clone_url(repo_info: &RepoInfo, ssh: bool, https: bool) -> (r: Result<
    String,
    GhbareError,
>)
    ensures
        (ssh && https) ==> (r matches Err(e) && e matches GhbareError::UrlParseError(m) && m@
            == "Cannot specify both --ssh and --https"@),
        (https && !ssh) ==> (r matches Ok(u) && u@ == https_url_of(
            repo_info.host@,
            repo_info.owner@,
            repo_info.repo@,
        )),
        !https ==> (r matches Ok(u) && u@ == ssh_url_of(
            repo_info.host@,
            repo_info.owner@,
            repo_info.repo@,
        )),
{
    if ssh && https {
        Err(GhbareError::UrlParseError(String::from_str("Cannot specify both --ssh and --https")))
    } else if https {
        Ok(repo_info.to_https_url())
    } else {
        Ok(repo_info.to_ssh_url())
    }
}

/// The project directory's path below the root: the triple's local path,
/// with the effective suffix appended — the command-line suffix if given,
/// else the configured one, else nothing.
pub fn local_path_with_suffix(
    repo_info: &RepoInfo,
    cli_suffix: Option<&str>,
    config_suffix: &Option<String>,
) -> (r: String)
    ensures
        r@ == local_path_of(repo_info.host@, repo_info.owner@, repo_info.repo@) + match cli_suffix {
            Some(s) => s@,
            None => match config_suffix {
                Some(s) => s@,
                None => Seq::<char>::empty(),
            },
        },
{
    let mut out = repo_info.to_local_path();
    match cli_suffix {
        Some(s) => {
            out.append(s);
        },
        None => match config_suffix {
            Some(s) => {
                out.append(s.as_str());
            },
            None => {
                proof {
                    assert(out@ + Seq::<char>::empty() =~= out@);
                }
            },
        },
    }
    out
}

} // verus!
