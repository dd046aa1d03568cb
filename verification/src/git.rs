//! Pure repository helpers: identity comparison and semantic-version tag
//! arithmetic. Everything that runs the version-control tool itself lives
//! in the binary layer, which hands the answers in as plain values.

use vstd::prelude::*;
use crate::strutil::{
    spec_trim, spec_parse_triple, spec_decimal, spec_is_ws, spec_split_char, trim_str,
    parse_triple, u64_to_string, str_eq, is_ws, split_char,
};

verus! {

/// Errors surfaced by tag computation.
#[derive(Debug, PartialEq, Eq, Structural)]
pub enum TagError {
    /// The latest tag is not `MAJOR.MINOR.PATCH`, or its minor number
    /// cannot be advanced.
    InvalidSemverTag,
}

/// The three numbers of a semantic-version tag, after trimming.
pub open spec fn spec_parse_semver_tag(tag: Seq<char>) -> Option<(u64, u64, u64)> {
    spec_parse_triple(spec_trim(tag))
}

/// Parse a semantic-version tag `MAJOR.MINOR.PATCH` (surrounding
/// whitespace ignored).
pub fn parse_semver_tag(tag: &str) -> (r: Result<(u64, u64, u64), TagError>)
    ensures
        r matches Ok(t) ==> spec_parse_semver_tag(tag@) == Some(t),
        r is Err <==> spec_parse_semver_tag(tag@) is None,
        r is Err ==> r == Result::<(u64, u64, u64), TagError>::Err(TagError::InvalidSemverTag),
{
    let t = trim_str(tag);
    match parse_triple(t.as_str()) {
        Some(triple) => Ok(triple),
        None => Err(TagError::InvalidSemverTag),
    }
}

/// The next minor version tag after `latest`: `0.1.0` when no tag exists
/// yet, else the latest tag's major number with the minor number
/// advanced and the patch number reset.
pub fn compute_next_minor_tag(latest: Option<&str>) -> (r: Result<String, TagError>)
    ensures
        latest is None ==> (r matches Ok(s) && s@ == ("0.1.0")@),
        latest matches Some(t) ==> {
            &&& (match spec_parse_semver_tag(t@) {
                None => true,
                Some(v) => v.1 == u64::MAX,
            }) <==> r == Result::<String, TagError>::Err(TagError::InvalidSemverTag)
            &&& (match spec_parse_semver_tag(t@) {
                None => true,
                Some(v) => v.1 < u64::MAX ==> (r matches Ok(s) && s@ == spec_decimal(
                    v.0 as nat,
                ) + (".")@ + spec_decimal(v.1 as nat + 1) + (".0")@),
            })
        },
{
    let latest_tag = match latest {
        Some(t) => t,
        None => {
            return Ok(("0.1.0").to_owned());
        },
    };
    let (major, minor, _patch) = parse_semver_tag(latest_tag)?;
    if minor == u64::MAX {
        return Err(TagError::InvalidSemverTag);
    }
    let mut s = u64_to_string(major);
    s.append(".");
    let minor_s = u64_to_string(minor + 1);
    s.append(minor_s.as_str());
    s.append(".0");
    Ok(s)
}

/// Whether two resolved commit identities name the same commit. The tip
/// test is made on canonical identities, never by comparing the raw
/// reference strings.
pub fn is_head_commit(head_id: &str, commit_id: &str) -> (r: bool)
    ensures
        r == (head_id@ == commit_id@),
{
    str_eq(head_id, commit_id)
}

/// The number of whitespace-separated tokens of a text, counted by
/// their starting positions.
pub open spec fn spec_token_count(s: Seq<char>) -> nat
    decreases s.len(),
{
    if s.len() == 0 {
        0
    } else {
        spec_token_count(s.drop_last()) + (if !spec_is_ws(s.last()) && (s.len() == 1
            || spec_is_ws(s[s.len() - 2])) {
            1nat
        } else {
            0nat
        })
    }
}

/// The parent count a commit-with-parents listing denotes: one token for
/// the commit itself, the rest for its parents; an empty listing counts
/// as no parents.
pub open spec fn spec_parent_count(s: Seq<char>) -> nat {
    if spec_token_count(s) == 0 {
        0
    } else {
        (spec_token_count(s) - 1) as nat
    }
}

/// Read the parent count out of a commit-with-parents listing (the
/// commit's own identity followed by one identity per parent).
pub fn parent_count_from_rev_list(out: &str) -> (n: usize)
    ensures
        n == spec_parent_count(out@),
{
    let len = out.unicode_len();
    let mut count: usize = 0;
    let mut prev_ws: bool = true;
    let mut i: usize = 0;
    while i < len
        invariant
            0 <= i <= len == out@.len(),
            count == spec_token_count(out@.take(i as int)),
            count <= i,
            prev_ws == (i == 0 || spec_is_ws(out@[i as int - 1])),
        decreases len - i,
    {
        proof {
            assert(out@.take(i as int + 1).drop_last() =~= out@.take(i as int));
            assert(out@.take(i as int + 1).last() == out@[i as int]);
        }
        let c = out.get_char(i);
        if !is_ws(c) && prev_ws {
            count = count + 1;
        }
        prev_ws = is_ws(c);
        i = i + 1;
    }
    proof {
        assert(out@.take(len as int) =~= out@);
    }
    if count == 0 {
        0
    } else {
        count - 1
    }
}

/// Whether the text holds the two-character arrow that marks a symbolic
/// remote reference.
pub open spec fn spec_has_arrow(s: Seq<char>) -> bool {
    exists|j: int| 0 <= j && j + 1 < s.len() && (#[trigger] s[j]) == '-' && s[j + 1] == '>'
}

/// Whether a listing line names a real remote branch: non-blank after
/// trimming, and not a symbolic (arrow) reference.
pub open spec fn spec_real_branch_line(line: Seq<char>) -> bool {
    spec_trim(line).len() > 0 && !spec_has_arrow(spec_trim(line))
}

/// Whether any line of the listing names a real remote branch.
pub open spec fn spec_any_real_branch_line(out: Seq<char>) -> bool {
    exists|i: int|
        0 <= i < spec_split_char(out, '\n').len() && spec_real_branch_line(
            #[trigger] spec_split_char(out, '\n')[i],
        )
}

/// Whether the text holds the symbolic-reference arrow.
fn has_arrow(s: &str) -> (r: bool)
    ensures
        r == spec_has_arrow(s@),
{
    let n = s.unicode_len();
    if n < 2 {
        return false;
    }
    let mut j: usize = 0;
    while j < n - 1
        invariant
            2 <= n == s@.len(),
            0 <= j <= n,
            forall|k: int|
                0 <= k < j ==> !((#[trigger] s@[k]) == '-' && k + 1 < s@.len() && s@[k + 1]
                    == '>'),
        decreases n - j,
    {
        if s.get_char(j) == '-' && s.get_char(j + 1) == '>' {
            proof {
                assert(0 <= j as int && j as int + 1 < s@.len() && s@[j as int] == '-'
                    && s@[j as int + 1] == '>');
            }
            return true;
        }
        j = j + 1;
    }
    false
}

/// Decide from a remote-branch listing (one branch per line) whether the
/// commit is on any real remote branch: a trimmed non-blank line that is
/// not a symbolic (arrow) reference.
pub fn remote_contains(out: &str) -> (r: bool)
    ensures
        r == spec_any_real_branch_line(out@),
{
    let lines = split_char(out, '\n');
    let ghost lv = lines.deep_view();
    let n = lines.len();
    let mut i: usize = 0;
    while i < n
        invariant
            0 <= i <= n == lines@.len() == lv.len(),
            lv == lines.deep_view(),
            lv == spec_split_char(out@, '\n'),
            forall|j: int| 0 <= j < i ==> !spec_real_branch_line(#[trigger] lv[j]),
        decreases n - i,
    {
        proof {
            assert(lines@[i as int]@ == lv[i as int]);
        }
        let t = trim_str(lines[i].as_str());
        if !t.as_str().is_empty() && !has_arrow(t.as_str()) {
            proof {
                assert(spec_real_branch_line(lv[i as int]));
            }
            return true;
        }
        i = i + 1;
    }
    false
}

} // verus!
