//! The decision core of the worktree subcommands.
//!
//! Each subcommand is a sequence of external git invocations around pure
//! decisions: which branch and directory to use, which argument list to
//! hand git, and which paths the machine-readable worktree listing names.
//! Those decisions live here, fully specified; spawning the processes and
//! touching the filesystem stay outside the library.

use crate::naming::dirname_of;
use crate::text::find_char;
use crate::text::has_prefix;
use crate::text::str_find_char;
use crate::text::str_has_prefix;
use vstd::prelude::*;
use vstd::string::StrSliceExecFns;
use vstd::string::StringExecFns;

verus! {

/// A porcelain line's contribution to the listing: the path of a
/// `worktree ` line, nothing for any other line.
pub open spec fn path_of_line(l: Seq<char>) -> Seq<Seq<char>> {
    if has_prefix(l, "worktree "@) {
        seq![l.skip("worktree "@.len() as int)]
    } else {
        seq![]
    }
}

/// A line with a single trailing carriage return removed, as line
/// splitting does.
pub open spec fn strip_cr(l: Seq<char>) -> Seq<char> {
    if l.len() > 0 && l.last() == '\r' {
        l.drop_last()
    } else {
        l
    }
}

/// The worktree paths named by a `git worktree list --porcelain` output:
/// split into lines at `\n` (dropping a trailing `\r` of each), keep the
/// lines starting with `worktree `, and take what follows that prefix.
pub open spec fn worktree_paths_of(s: Seq<char>) -> Seq<Seq<char>>
    decreases s.len(),
{
    if s.len() == 0 {
        seq![]
    } else {
        match find_char(s, '\n') {
            None => path_of_line(strip_cr(s)),
            Some(i) => {
                if 0 <= i < s.len() {
                    path_of_line(strip_cr(s.take(i))) + worktree_paths_of(s.skip(i + 1))
                } else {
                    seq![]
                }
            },
        }
    }
}

/// Extract the worktree paths from `git worktree list --porcelain` output.
pub fn parse_worktree_list(output: &str) -> (r: Vec<String>)
    ensures
        r.deep_view() == worktree_paths_of(output@),
{
    let mut acc: Vec<String> = Vec::new();
    let mut cur: &str = output;
    proof {
        assert(acc.deep_view() + worktree_paths_of(cur@) =~~= worktree_paths_of(output@));
    }
    loop
        invariant
            acc.deep_view() + worktree_paths_of(cur@) =~~= worktree_paths_of(output@),
        ensures
            cur@.len() == 0,
        decreases cur@.len(),
    {
        let n: usize = cur.unicode_len();
        if n == 0 {
            break;
        }
        let ghost prev = cur@;
        let ghost prev_acc = acc.deep_view();
        let (line_raw, rest): (&str, &str) = match str_find_char(cur, '\n') {
            Some(i) => {
                proof {
                    crate::text::lemma_find_char(cur@, '\n');
                }
                (cur.substring_char(0, i), cur.substring_char(i + 1, n))
            },
            None => (cur, cur.substring_char(n, n)),
        };
        proof {
            assert(worktree_paths_of(prev) =~~= path_of_line(strip_cr(line_raw@))
                + worktree_paths_of(rest@));
        }
        let ln: usize = line_raw.unicode_len();
        let line = if ln > 0 && line_raw.get_char(ln - 1) == '\r' {
            line_raw.substring_char(0, ln - 1)
        } else {
            line_raw
        };
        proof {
            assert(line@ =~= strip_cr(line_raw@));
        }
        if str_has_prefix(line, "worktree ") {
            proof {
                reveal_strlit("worktree ");
            }
            let lln: usize = line.unicode_len();
            acc.push(String::from_str(line.substring_char(9, lln)));
            proof {
                assert(acc.deep_view() =~~= prev_acc + path_of_line(line@));
            }
        } else {
            proof {
                assert(path_of_line(line@) =~= Seq::<Seq<char>>::empty());
                assert(acc.deep_view() =~~= prev_acc + path_of_line(line@));
            }
        }
        cur = rest;
        proof {
            assert(acc.deep_view() + worktree_paths_of(cur@) =~~= worktree_paths_of(output@));
        }
    }
    proof {
        assert(worktree_paths_of(cur@) =~~= Seq::<Seq<char>>::empty());
        assert(acc.deep_view() =~~= worktree_paths_of(output@));
    }
    acc
}

/// The argument list handed to git to add a worktree: track the existing
/// branch when it exists, otherwise create it from the base branch.
pub fn worktree_add_args(worktree_path: &str, branch: &str, base_branch: &str, exists: bool) -> (r:
    Vec<String>)
    ensures
        exists ==> r.deep_view() == seq!["worktree"@, "add"@, worktree_path@, branch@],
        !exists ==> r.deep_view() == seq![
            "worktree"@,
            "add"@,
            "-b"@,
            branch@,
            worktree_path@,
            base_branch@,
        ],
{
    let mut args: Vec<String> = Vec::new();
    args.push(String::from_str("worktree"));
    args.push(String::from_str("add"));
    if exists {
        args.push(String::from_str(worktree_path));
        args.push(String::from_str(branch));
        proof {
            assert(args.deep_view() =~~= seq!["worktree"@, "add"@, worktree_path@, branch@]);
        }
    } else {
        args.push(String::from_str("-b"));
        args.push(String::from_str(branch));
        args.push(String::from_str(worktree_path));
        args.push(String::from_str(base_branch));
        proof {
            assert(args.deep_view() =~~= seq![
                "worktree"@,
                "add"@,
                "-b"@,
                branch@,
                worktree_path@,
                base_branch@,
            ]);
        }
    }
    args
}

/// The argument list handed to git to remove a worktree, with `--force`
/// exactly when forced.
pub fn worktree_remove_args(worktree_path: &str, force: bool) -> (r: Vec<String>)
    ensures
        force ==> r.deep_view() == seq!["worktree"@, "remove"@, "--force"@, worktree_path@],
        !force ==> r.deep_view() == seq!["worktree"@, "remove"@, worktree_path@],
{
    let mut args: Vec<String> = Vec::new();
    args.push(String::from_str("worktree"));
    args.push(String::from_str("remove"));
    if force {
        args.push(String::from_str("--force"));
    }
    args.push(String::from_str(worktree_path));
    proof {
        if force {
            assert(args.deep_view() =~~= seq!["worktree"@, "remove"@, "--force"@, worktree_path@]);
        } else {
            assert(args.deep_view() =~~= seq!["worktree"@, "remove"@, worktree_path@]);
        }
    }
    args
}

/// Resolve the names the add subcommand works with: the branch (the
/// explicit argument, else the generated WIP name), the worktree directory
/// name derived from that branch, and the base branch (the explicit
/// override, else the configured one).
pub fn resolve_add_names(branch: Option<&str>, generated: &str, base_override: Option<&str>, config_base: &str) -> (r: (String, String, String))
    ensures
        r.0@ == match branch {
            Some(b) => b@,
            None => generated@,
        },
        r.1@ == dirname_of(r.0@),
        r.2@ == match base_override {
            Some(b) => b@,
            None => config_base@,
        },
{
    let chosen: String = match branch {
        Some(b) => String::from_str(b),
        None => String::from_str(generated),
    };
    let dirname = crate::naming::branch_to_dirname(chosen.as_str());
    let base: String = match base_override {
        Some(b) => String::from_str(b),
        None => String::from_str(config_base),
    };
    (chosen, dirname, base)
}

} // verus!
