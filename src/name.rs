//! Repository names: non-empty, over ASCII letters, digits, `_`, `.` and `-`.
use vstd::prelude::*;

verus! {

/// The pattern a repository name must match as a whole.
pub const NAME_PATTERN: &'static str = "^[a-zA-Z0-9_.-]+$";

/// A character allowed in a repository name.
pub open spec fn is_name_char(c: char) -> bool {
    ('a' <= c && c <= 'z') || ('A' <= c && c <= 'Z') || ('0' <= c && c <= '9') || c == '_' || c
        == '.' || c == '-'
}

/// A repository name: at least one character, each of them allowed.
pub open spec fn is_valid_name(s: Seq<char>) -> bool {
    s.len() > 0 && forall|i: int| 0 <= i < s.len() ==> is_name_char(#[trigger] s[i])
}

/// Relies on regex::Regex::new and Regex::is_match: the anchored class pattern
/// `^[a-zA-Z0-9_.-]+$` compiles, and matches exactly the non-empty texts made of
/// the listed ASCII characters (`$` without the multi-line flag is the end of the
/// text only).
#[verifier::external_body]
fn pattern_matches(pattern: &str, text: &str) -> (r: bool)
    requires
        pattern@ == NAME_PATTERN@,
    ensures
        r == is_valid_name(text@),
{
    regex::Regex::new(pattern).map_or(false, |re| re.is_match(text))
}

/// Whether `name` is acceptable as the name of a new repository.
pub fn is_valid_repo_name(name: &str) -> (r: bool)
    ensures
        r == is_valid_name(name@),
{
    pattern_matches(NAME_PATTERN, name)
}

} // verus!
