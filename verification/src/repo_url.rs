//! Canonicalization of remote repository locations.
//!
//! Four input syntaxes are recognized — scp-like SSH (`git@HOST:OWNER/REPO`),
//! `https://`/`http://` URLs, `ssh://` URLs, and the bare shorthand
//! `HOST/OWNER/REPO` — and normalized into a [`RepoInfo`] triple, which
//! serializes back to SSH and HTTPS clone URLs and to a local path.

use crate::error::GhbareError;
use crate::text::find_char;
use crate::text::has_prefix;
use crate::text::str_find_char;
use crate::text::str_has_prefix;
use crate::text::str_strip_git;
use crate::text::str_trim;
use crate::text::strip_git;
use crate::text::trim_spec;
use vstd::prelude::*;
use vstd::string::StrSliceExecFns;
use vstd::string::StringExecFns;

verus! {

/// The canonical `{host, owner, repo}` triple of a remote repository.
/// `repo` never carries a trailing `.git` suffix: parsing strips it.
#[derive(Debug, Clone, PartialEq, Eq)]
pub struct RepoInfo {
    pub host: String,
    pub owner: String,
    pub repo: String,
}

/// The SSH clone URL of a triple: `git@HOST:OWNER/REPO.git`.
pub open spec fn ssh_url_of(host: Seq<char>, owner: Seq<char>, repo: Seq<char>) -> Seq<char> {
    "git@"@ + host + ":"@ + owner + "/"@ + repo + ".git"@
}

/// The HTTPS clone URL of a triple: `https://HOST/OWNER/REPO.git`.
pub open spec fn https_url_of(host: Seq<char>, owner: Seq<char>, repo: Seq<char>) -> Seq<char> {
    "https://"@ + host + "/"@ + owner + "/"@ + repo + ".git"@
}

/// The local path of a triple below the configured root: `HOST/OWNER/REPO`.
pub open spec fn local_path_of(host: Seq<char>, owner: Seq<char>, repo: Seq<char>) -> Seq<char> {
    host + "/"@ + owner + "/"@ + repo
}

impl RepoInfo {
    /// Serialize to the SSH clone URL; never fails.
    pub fn to_ssh_url(&self) -> (r: String)
        ensures
            r@ == ssh_url_of(self.host@, self.owner@, self.repo@),
    {
        let mut out = String::new();
        out.append("git@");
        out.append(self.host.as_str());
        out.append(":");
        out.append(self.owner.as_str());
        out.append("/");
        out.append(self.repo.as_str());
        out.append(".git");
        proof {
            assert(out@ =~= ssh_url_of(self.host@, self.owner@, self.repo@));
        }
        out
    }

    /// Serialize to the HTTPS clone URL; never fails.
    pub fn to_https_url(&self) -> (r: String)
        ensures
            r@ == https_url_of(self.host@, self.owner@, self.repo@),
    {
        let mut out = String::new();
        out.append("https://");
        out.append(self.host.as_str());
        out.append("/");
        out.append(self.owner.as_str());
        out.append("/");
        out.append(self.repo.as_str());
        out.append(".git");
        proof {
            assert(out@ =~= https_url_of(self.host@, self.owner@, self.repo@));
        }
        out
    }

    /// Serialize to the local path under the configured root; never fails.
    pub fn to_local_path(&self) -> (r: String)
        ensures
            r@ == local_path_of(self.host@, self.owner@, self.repo@),
    {
        let mut out = String::new();
        out.append(self.host.as_str());
        out.append("/");
        out.append(self.owner.as_str());
        out.append("/");
        out.append(self.repo.as_str());
        proof {
            assert(out@ =~= local_path_of(self.host@, self.owner@, self.repo@));
        }
        out
    }
}

/// Split `path` at its first `/` into owner and repo; `None` when `path`
/// holds no `/` at all.
pub open spec fn owner_repo_split(path: Seq<char>, host: Seq<char>) -> Option<
    (Seq<char>, Seq<char>, Seq<char>),
> {
    match find_char(path, '/') {
        None => None,
        Some(i) => Some((host, path.take(i), path.skip(i + 1))),
    }
}

/// Parse the scp-like syntax `git@HOST:OWNER/REPO[.git]`: split at the first
/// `:`, strip trailing `.git` from the path, split the path at its first `/`.
pub open spec fn scp_parse(t: Seq<char>) -> Option<(Seq<char>, Seq<char>, Seq<char>)> {
    if !has_prefix(t, "git@"@) {
        None
    } else {
        let rest = t.skip("git@"@.len() as int);
        match find_char(rest, ':') {
            None => None,
            Some(i) => owner_repo_split(strip_git(rest.skip(i + 1)), rest.take(i)),
        }
    }
}

/// What the URL library extracts from an absolute URL: its host and its
/// path, or `None` when the input does not parse or has no host.
pub uninterp spec fn url_parts_of(s: Seq<char>) -> Option<(Seq<char>, Seq<char>)>;

/// `p` without a single leading `/`.
pub open spec fn strip_one_leading_slash(p: Seq<char>) -> Seq<char> {
    if p.len() > 0 && p[0] == '/' {
        p.skip(1)
    } else {
        p
    }
}

/// Parse a `https://`, `http://` or `ssh://` URL: host and path come from
/// the URL library, then a single leading `/` and trailing `.git` are
/// stripped from the path before the owner/repo split.
pub open spec fn hosted_parse(t: Seq<char>) -> Option<(Seq<char>, Seq<char>, Seq<char>)> {
    match url_parts_of(t) {
        None => None,
        Some(hp) => owner_repo_split(strip_git(strip_one_leading_slash(hp.1)), hp.0),
    }
}

/// Parse the shorthand `HOST/OWNER/REPO[.git]`: strip trailing `.git`, then
/// require exactly three `/`-separated segments.
pub open spec fn short_parse(t: Seq<char>) -> Option<(Seq<char>, Seq<char>, Seq<char>)> {
    let p = strip_git(t);
    match find_char(p, '/') {
        None => None,
        Some(i) => {
            let rest = p.skip(i + 1);
            match find_char(rest, '/') {
                None => None,
                Some(j) => {
                    if find_char(rest.skip(j + 1), '/') is Some {
                        None
                    } else {
                        Some((p.take(i), rest.take(j), rest.skip(j + 1)))
                    }
                },
            }
        },
    }
}

/// The full dispatch on an already-trimmed input, in the order the tool
/// checks the syntaxes.
pub open spec fn repo_url_parse(t: Seq<char>) -> Option<(Seq<char>, Seq<char>, Seq<char>)> {
    if has_prefix(t, "git@"@) {
        scp_parse(t)
    } else if has_prefix(t, "https://"@) || has_prefix(t, "http://"@) {
        hosted_parse(t)
    } else if has_prefix(t, "ssh://"@) {
        hosted_parse(t)
    } else {
        short_parse(t)
    }
}

/// Relies on `url::Url::parse`, `url::Url::host_str` and `url::Url::path`:
/// parsing an absolute URL is a function of the input string alone; the
/// result is the URL's host and path when the input parses and has a host,
/// and `None` otherwise.
#[verifier::external_body]
fn url_host_and_path(input: &str) -> (r: Option<(String, String)>)
    ensures
        match r {
            Some(hp) => url_parts_of(input@) == Some((hp.0@, hp.1@)),
            None => url_parts_of(input@) is None,
        },
{
    match url::Url::parse(input) {
        Ok(u) => match u.host_str() {
            Some(h) => {
                let host = h.to_string();
                let path = u.path().to_string();
                Some((host, path))
            },
            None => None,
        },
        Err(_) => None,
    }
}

/// Split `path` at its first `/` into owner and repo of a [`RepoInfo`] with
/// the given host; the error carries `original`, the whole offending input.
pub fn parse_owner_repo(path: &str, host: &str, original: &str) -> (r: Result<
    RepoInfo,
    GhbareError,
>)
    ensures
        match owner_repo_split(path@, host@) {
            Some(tr) => r matches Ok(info) && info.host@ == tr.0 && info.owner@ == tr.1
                && info.repo@ == tr.2,
            None => r matches Err(e) && e matches GhbareError::UrlParseError(s) && s@ == original@,
        },
{
    let n: usize = path.unicode_len();
    match str_find_char(path, '/') {
        None => Err(GhbareError::UrlParseError(String::from_str(original))),
        Some(i) => {
            proof {
                crate::text::lemma_find_char(path@, '/');
            }
            let owner = String::from_str(path.substring_char(0, i));
            let repo = String::from_str(path.substring_char(i + 1, n));
            Ok(RepoInfo { host: String::from_str(host), owner, repo })
        },
    }
}

/// Parse the scp-like syntax `git@HOST:OWNER/REPO[.git]`; inputs without the
/// `git@` prefix or without the required segments are rejected with the
/// input echoed in the error.
pub fn parse_ssh_url(input: &str) -> (r: Result<RepoInfo, GhbareError>)
    ensures
        match scp_parse(input@) {
            Some(tr) => r matches Ok(info) && info.host@ == tr.0 && info.owner@ == tr.1
                && info.repo@ == tr.2,
            None => r matches Err(e) && e matches GhbareError::UrlParseError(s) && s@ == input@,
        },
{
    if !str_has_prefix(input, "git@") {
        return Err(GhbareError::UrlParseError(String::from_str(input)));
    }
    let n: usize = input.unicode_len();
    proof {
        reveal_strlit("git@");
    }
    let rest = input.substring_char(4, n);
    match str_find_char(rest, ':') {
        None => Err(GhbareError::UrlParseError(String::from_str(input))),
        Some(i) => {
            proof {
                crate::text::lemma_find_char(rest@, ':');
            }
            let host = rest.substring_char(0, i);
            let rn: usize = rest.unicode_len();
            let path = str_strip_git(rest.substring_char(i + 1, rn));
            parse_owner_repo(path.as_str(), host, input)
        },
    }
}

/// Parse a `https://` or `http://` URL through the URL library, then split
/// its path into owner and repo.
pub fn parse_https_url(input: &str) -> (r: Result<RepoInfo, GhbareError>)
    ensures
        match hosted_parse(input@) {
            Some(tr) => r matches Ok(info) && info.host@ == tr.0 && info.owner@ == tr.1
                && info.repo@ == tr.2,
            None => r matches Err(e) && e matches GhbareError::UrlParseError(s) && s@ == input@,
        },
{
    match url_host_and_path(input) {
        None => Err(GhbareError::UrlParseError(String::from_str(input))),
        Some(hp) => {
            let (host, path) = hp;
            let pn: usize = path.as_str().unicode_len();
            let stripped = if pn > 0 && path.as_str().get_char(0) == '/' {
                str_strip_git(path.as_str().substring_char(1, pn))
            } else {
                str_strip_git(path.as_str())
            };
            parse_owner_repo(stripped.as_str(), host.as_str(), input)
        },
    }
}

/// Parse a `ssh://` URL: the extraction is the same as for HTTPS URLs.
pub fn parse_ssh_protocol_url(input: &str) -> (r: Result<RepoInfo, GhbareError>)
    ensures
        match hosted_parse(input@) {
            Some(tr) => r matches Ok(info) && info.host@ == tr.0 && info.owner@ == tr.1
                && info.repo@ == tr.2,
            None => r matches Err(e) && e matches GhbareError::UrlParseError(s) && s@ == input@,
        },
{
    parse_https_url(input)
}

/// Parse the shorthand `HOST/OWNER/REPO[.git]`: exactly three segments, so
/// owner and repo cannot themselves contain `/`.
pub fn parse_short_url(input: &str) -> (r: Result<RepoInfo, GhbareError>)
    ensures
        match short_parse(input@) {
            Some(tr) => r matches Ok(info) && info.host@ == tr.0 && info.owner@ == tr.1
                && info.repo@ == tr.2,
            None => r matches Err(e) && e matches GhbareError::UrlParseError(s) && s@ == input@,
        },
{
    let p = str_strip_git(input);
    let pn: usize = p.as_str().unicode_len();
    match str_find_char(p.as_str(), '/') {
        None => Err(GhbareError::UrlParseError(String::from_str(input))),
        Some(i) => {
            proof {
                crate::text::lemma_find_char(p@, '/');
            }
            let rest = p.as_str().substring_char(i + 1, pn);
            let rn: usize = rest.unicode_len();
            match str_find_char(rest, '/') {
                None => Err(GhbareError::UrlParseError(String::from_str(input))),
                Some(j) => {
                    proof {
                        crate::text::lemma_find_char(rest@, '/');
                    }
                    let tail = rest.substring_char(j + 1, rn);
                    match str_find_char(tail, '/') {
                        Some(_) => Err(GhbareError::UrlParseError(String::from_str(input))),
                        None => {
                            let host = String::from_str(p.as_str().substring_char(0, i));
                            let owner = String::from_str(rest.substring_char(0, j));
                            let repo = String::from_str(tail);
                            Ok(RepoInfo { host, owner, repo })
                        },
                    }
                },
            }
        },
    }
}

proof fn lemma_slash_no_git_suffix(left: Seq<char>, repo: Seq<char>)
    requires
        !crate::text::has_suffix(repo, crate::text::git_suffix()),
    ensures
        !crate::text::has_suffix(left + "/"@ + repo, crate::text::git_suffix()),
{
    reveal_strlit("/");
    let whole = left + "/"@ + repo;
    let git = crate::text::git_suffix();
    if crate::text::has_suffix(whole, git) {
        if repo.len() >= 4 {
            assert(repo.subrange(repo.len() - 4, repo.len() as int) =~= whole.subrange(
                whole.len() - 4,
                whole.len() as int,
            ));
        } else {
            let k = whole.len() - repo.len() - 1;
            assert(whole[k] == '/');
            assert(whole.subrange(whole.len() - 4, whole.len() as int)[k - (whole.len() - 4)]
                == whole[k]);
        }
        assert(false);
    }
}

/// Law: serializing a triple to its SSH clone URL and parsing it back
/// recovers the triple, whenever the fields can round-trip at all: the host
/// holds no `:`, the owner holds no `/`, and the repo does not itself end
/// in `.git` (parsing strips that suffix).
pub proof fn lemma_ssh_url_round_trip(host: Seq<char>, owner: Seq<char>, repo: Seq<char>)
    requires
        !host.contains(':'),
        !owner.contains('/'),
        !crate::text::has_suffix(repo, crate::text::git_suffix()),
    ensures
        scp_parse(ssh_url_of(host, owner, repo)) matches Some(tr) && tr.0 == host && tr.1 == owner
            && tr.2 == repo,
{
    reveal_strlit("git@");
    reveal_strlit(":");
    reveal_strlit("/");
    reveal_strlit(".git");
    let s = ssh_url_of(host, owner, repo);
    assert(s.subrange(0, 4) =~= "git@"@);
    let rest = s.skip(4);
    assert(rest =~= host + ":"@ + owner + "/"@ + repo + ".git"@);
    let hl = host.len() as int;
    assert(rest[hl] == ':');
    assert forall|j: int| 0 <= j < hl implies rest[j] != ':' by {
        assert(rest[j] == host[j]);
        if host[j] == ':' {
            assert(host.contains(':'));
        }
    }
    crate::text::lemma_find_char_at(rest, ':', hl);
    assert(rest.take(hl) =~= host);
    let path0 = rest.skip(hl + 1);
    let stem = owner + "/"@ + repo;
    assert(path0 =~= stem + ".git"@);
    assert(".git"@ =~= crate::text::git_suffix());
    assert(path0.subrange(path0.len() - 4, path0.len() as int) =~= crate::text::git_suffix());
    assert(path0.take(path0.len() - 4) =~= stem);
    lemma_slash_no_git_suffix(owner, repo);
    assert(strip_git(path0) == strip_git(stem));
    assert(strip_git(stem) == stem);
    let ol = owner.len() as int;
    assert(stem[ol] == '/');
    assert forall|j: int| 0 <= j < ol implies stem[j] != '/' by {
        assert(stem[j] == owner[j]);
        if owner[j] == '/' {
            assert(owner.contains('/'));
        }
    }
    crate::text::lemma_find_char_at(stem, '/', ol);
    assert(stem.take(ol) =~= owner);
    assert(stem.skip(ol + 1) =~= repo);
}

/// Law: serializing a triple to its local path and parsing that back as the
/// shorthand syntax recovers the triple, whenever the fields can round-trip
/// at all: no field holds a `/`, and the repo does not itself end in
/// `.git`.
pub proof fn lemma_local_path_round_trip(host: Seq<char>, owner: Seq<char>, repo: Seq<char>)
    requires
        !host.contains('/'),
        !owner.contains('/'),
        !repo.contains('/'),
        !crate::text::has_suffix(repo, crate::text::git_suffix()),
    ensures
        short_parse(local_path_of(host, owner, repo)) matches Some(tr) && tr.0 == host && tr.1
            == owner && tr.2 == repo,
{
    reveal_strlit("/");
    reveal_strlit(".git");
    let s = local_path_of(host, owner, repo);
    let stem = owner + "/"@ + repo;
    assert(s =~= host + "/"@ + stem);
    lemma_slash_no_git_suffix(host + "/"@ + owner, repo);
    assert(host + "/"@ + owner + "/"@ + repo =~= s);
    assert(strip_git(s) == s);
    let hl = host.len() as int;
    assert(s[hl] == '/');
    assert forall|j: int| 0 <= j < hl implies s[j] != '/' by {
        assert(s[j] == host[j]);
        if host[j] == '/' {
            assert(host.contains('/'));
        }
    }
    crate::text::lemma_find_char_at(s, '/', hl);
    assert(s.take(hl) =~= host);
    assert(s.skip(hl + 1) =~= stem);
    let ol = owner.len() as int;
    assert(stem[ol] == '/');
    assert forall|j: int| 0 <= j < ol implies stem[j] != '/' by {
        assert(stem[j] == owner[j]);
        if owner[j] == '/' {
            assert(owner.contains('/'));
        }
    }
    crate::text::lemma_find_char_at(stem, '/', ol);
    assert(stem.take(ol) =~= owner);
    let tail = stem.skip(ol + 1);
    assert(tail =~= repo);
    assert forall|j: int| 0 <= j < tail.len() implies tail[j] != '/' by {
        if tail[j] == '/' {
            assert(repo.contains('/'));
        }
    }
    crate::text::lemma_find_char_absent(tail, '/');
}

/// Normalize any of the four supported syntaxes into a [`RepoInfo`].  The
/// input is trimmed first; on failure the error carries the trimmed input.
pub fn parse_repo_url(input: &str) -> (r: Result<RepoInfo, GhbareError>)
    ensures
        match repo_url_parse(trim_spec(input@)) {
            Some(tr) => r matches Ok(info) && info.host@ == tr.0 && info.owner@ == tr.1
                && info.repo@ == tr.2,
            None => r matches Err(e) && e matches GhbareError::UrlParseError(s) && s@ == trim_spec(
                input@,
            ),
        },
{
    let trimmed = str_trim(input);
    let t = trimmed.as_str();
    if str_has_prefix(t, "git@") {
        parse_ssh_url(t)
    } else if str_has_prefix(t, "https://") || str_has_prefix(t, "http://") {
        parse_https_url(t)
    } else if str_has_prefix(t, "ssh://") {
        parse_ssh_protocol_url(t)
    } else {
        parse_short_url(t)
    }
}

} // verus!
