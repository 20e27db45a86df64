//! Branch and directory naming policy.
//!
//! A worktree directory name is a pure function of its branch name: every
//! `/` becomes `-`.  When no branch name is supplied, a WIP name of the
//! fixed shape `wip/MMDD-HHMMSS` is formatted from the wall-clock time
//! components the caller read.

use vstd::prelude::*;
use vstd::string::StrSliceExecFns;
use vstd::string::StringExecFns;

verus! {

/// A branch name's worktree directory name: every `/` becomes `-`.
pub open spec fn dirname_of(b: Seq<char>) -> Seq<char> {
    b.map_values(|c: char| if c == '/' { '-' } else { c })
}

/// Replace every `/` in a branch name with `-`, yielding a filesystem-safe
/// directory name.  Total: never fails, whatever the branch name.  The
/// mapping is not injective — branches `a/b` and `a-b` collide — and that is
/// an accepted limitation, not a detected error.
pub fn branch_to_dirname(branch: &str) -> (r: String)
    ensures
        r@ == dirname_of(branch@),
{
    let n: usize = branch.unicode_len();
    let mut out = String::new();
    let mut i: usize = 0;
    while i < n
        invariant
            n == branch@.len(),
            i <= n,
            out@ == dirname_of(branch@.take(i as int)),
        decreases n - i,
    {
        let c = branch.get_char(i);
        if c == '/' {
            out.append("-");
            proof {
                reveal_strlit("-");
            }
        } else {
            let piece = branch.substring_char(i, i + 1);
            out.append(piece);
        }
        proof {
            assert(out@ =~= dirname_of(branch@.take(i + 1)));
        }
        i = i + 1;
    }
    proof {
        assert(branch@.take(n as int) =~= branch@);
    }
    out
}

/// Law: directory-name derivation keeps the length, rewrites exactly the
/// `/` characters to `-`, leaves no `/` behind, and is idempotent:
/// deriving a name from an already-derived name changes nothing.
pub proof fn lemma_dirname_of(b: Seq<char>)
    ensures
        dirname_of(b).len() == b.len(),
        forall|i: int|
            0 <= i < b.len() ==> dirname_of(b)[i] == (if b[i] == '/' {
                '-'
            } else {
                b[i]
            }),
        forall|i: int| 0 <= i < b.len() ==> dirname_of(b)[i] != '/',
        dirname_of(dirname_of(b)) == dirname_of(b),
{
    assert(dirname_of(dirname_of(b)) =~= dirname_of(b));
}

/// The character of a single decimal digit.
pub open spec fn digit_char_of(d: u8) -> char {
    if d == 0 {
        '0'
    } else if d == 1 {
        '1'
    } else if d == 2 {
        '2'
    } else if d == 3 {
        '3'
    } else if d == 4 {
        '4'
    } else if d == 5 {
        '5'
    } else if d == 6 {
        '6'
    } else if d == 7 {
        '7'
    } else if d == 8 {
        '8'
    } else if d == 9 {
        '9'
    } else {
        '?'
    }
}

/// A number below 100 as exactly two decimal digits, zero-padded.
pub open spec fn two_digits_of(n: u8) -> Seq<char> {
    seq![digit_char_of(n / 10), digit_char_of(n % 10)]
}

/// The WIP branch name formatted from wall-clock components:
/// `wip/{MMDD}-{HHMMSS}`, each component zero-padded to two digits.
pub open spec fn wip_name_of(month: u8, day: u8, hour: u8, minute: u8, second: u8) -> Seq<char> {
    "wip/"@ + two_digits_of(month) + two_digits_of(day) + "-"@ + two_digits_of(hour)
        + two_digits_of(minute) + two_digits_of(second)
}

fn digit_str(d: u8) -> (r: &'static str)
    requires
        d < 10,
    ensures
        r@ == seq![digit_char_of(d)],
{
    proof {
        reveal_strlit("0");
        reveal_strlit("1");
        reveal_strlit("2");
        reveal_strlit("3");
        reveal_strlit("4");
        reveal_strlit("5");
        reveal_strlit("6");
        reveal_strlit("7");
        reveal_strlit("8");
        reveal_strlit("9");
    }
    let r = match d {
        0 => "0",
        1 => "1",
        2 => "2",
        3 => "3",
        4 => "4",
        5 => "5",
        6 => "6",
        7 => "7",
        8 => "8",
        _ => "9",
    };
    proof {
        assert(r@ =~= seq![digit_char_of(d)]);
    }
    r
}

fn push_two_digits(out: &mut String, n: u8)
    requires
        n < 100,
    ensures
        final(out)@ == old(out)@ + two_digits_of(n),
{
    out.append(digit_str(n / 10));
    out.append(digit_str(n % 10));
    proof {
        assert(out@ =~= old(out)@ + two_digits_of(n));
    }
}

/// Format the auto-generated WIP branch name `wip/{MMDD}-{HHMMSS}` from the
/// local wall-clock components the caller read at invocation time.
pub fn generate_wip_branch_name(month: u8, day: u8, hour: u8, minute: u8, second: u8) -> (r:
    String)
    requires
        1 <= month <= 12,
        1 <= day <= 31,
        hour < 24,
        minute < 60,
        second < 60,
    ensures
        r@ == wip_name_of(month, day, hour, minute, second),
{
    let mut out = String::new();
    out.append("wip/");
    push_two_digits(&mut out, month);
    push_two_digits(&mut out, day);
    out.append("-");
    push_two_digits(&mut out, hour);
    push_two_digits(&mut out, minute);
    push_two_digits(&mut out, second);
    proof {
        assert(out@ =~= wip_name_of(month, day, hour, minute, second));
    }
    out
}

/// A decimal digit character.
pub open spec fn is_ascii_digit(c: char) -> bool {
    48 <= c as u32 <= 57
}

/// Law: every WIP branch name matches `wip/\d{4}-\d{6}` — 15 characters:
/// the literal `wip/`, four digits, `-`, six digits.
pub proof fn lemma_wip_name_shape(month: u8, day: u8, hour: u8, minute: u8, second: u8)
    requires
        month < 100,
        day < 100,
        hour < 100,
        minute < 100,
        second < 100,
    ensures
        wip_name_of(month, day, hour, minute, second).len() == 15,
        wip_name_of(month, day, hour, minute, second).subrange(0, 4) == "wip/"@,
        wip_name_of(month, day, hour, minute, second)[8] == '-',
        forall|i: int|
            4 <= i < 8 ==> is_ascii_digit(wip_name_of(month, day, hour, minute, second)[i]),
        forall|i: int|
            9 <= i < 15 ==> is_ascii_digit(wip_name_of(month, day, hour, minute, second)[i]),
{
    reveal_strlit("wip/");
    reveal_strlit("-");
    let s = wip_name_of(month, day, hour, minute, second);
    assert(s.subrange(0, 4) =~= "wip/"@);
    assert(forall|d: u8| d < 10 ==> is_ascii_digit(digit_char_of(d)));
    assert(s[4] == digit_char_of(month / 10) && s[5] == digit_char_of(month % 10));
    assert(s[6] == digit_char_of(day / 10) && s[7] == digit_char_of(day % 10));
    assert(s[8] == '-');
    assert(s[9] == digit_char_of(hour / 10) && s[10] == digit_char_of(hour % 10));
    assert(s[11] == digit_char_of(minute / 10) && s[12] == digit_char_of(minute % 10));
    assert(s[13] == digit_char_of(second / 10) && s[14] == digit_char_of(second % 10));
}

} // verus!
