//! Reading command output: the remote URL that repository creation prints, and
//! whether a remote named `origin` is already bound.
use vstd::prelude::*;
use crate::text::{
    contains_text, has_substring, is_word, lines_of, split_lines, trim_of, trim_text,
};

verus! {

/// A line that carries a remote URL: an SSH host marker or an HTTPS scheme.
pub open spec fn is_url_line(l: Seq<char>) -> bool {
    has_substring(l, "git@"@) || has_substring(l, "https://"@)
}

/// `i` is the first URL-bearing line of `lines`.
pub open spec fn is_first_url_line(lines: Seq<Seq<char>>, i: int) -> bool {
    0 <= i < lines.len() && is_url_line(lines[i]) && forall|j: int|
        0 <= j < i ==> !is_url_line(#[trigger] lines[j])
}

/// Some line of `lines` carries a URL.
pub open spec fn has_url_line(lines: Seq<Seq<char>>) -> bool {
    exists|i: int| 0 <= i < lines.len() && is_url_line(#[trigger] lines[i])
}

/// Whether one line carries a remote URL.
pub fn url_line(l: &str) -> (r: bool)
    ensures
        r == is_url_line(l@),
{
    contains_text(l, "git@") || contains_text(l, "https://")
}

/// The index of the first URL-bearing line, in order; later ones are ignored.
pub fn first_url_line(lines: &Vec<String>) -> (r: Option<usize>)
    ensures
        match r {
            Some(i) => is_first_url_line(lines@.map_values(|l: String| l@), i as int),
            None => !has_url_line(lines@.map_values(|l: String| l@)),
        },
{
    let ghost ls = lines@.map_values(|l: String| l@);
    let mut i: usize = 0;
    while i < lines.len()
        invariant
            ls == lines@.map_values(|l: String| l@),
            i <= lines.len(),
            forall|j: int| 0 <= j < i ==> !is_url_line(#[trigger] ls[j]),
        decreases lines.len() - i,
    {
        if url_line(lines[i].as_str()) {
            return Some(i);
        }
        i += 1;
    }
    None
}

/// The remote URL in the output of repository creation: the first line that
/// carries one, trimmed; `None` where no line does.
pub fn extract_url(output: &str) -> (r: Option<String>)
    ensures
        match r {
            Some(u) => exists|i: int|
                is_first_url_line(lines_of(output@), i) && u@ == trim_of(
                    #[trigger] lines_of(output@)[i],
                ),
            None => !has_url_line(lines_of(output@)),
        },
{
    let lines = split_lines(output);
    proof {
        assert(lines@.map_values(|l: String| l@) =~= lines_of(output@));
    }
    match first_url_line(&lines) {
        Some(i) => Some(trim_text(lines[i].as_str())),
        None => None,
    }
}

/// The listed remotes bind `origin`: one line of the listing is that name.
pub open spec fn lists_origin(listing: Seq<char>) -> bool {
    exists|i: int|
        0 <= i < lines_of(listing).len() && #[trigger] lines_of(listing)[i] == "origin"@
}

/// Whether the output of `git remote` names a remote `origin`.
pub fn has_origin(listing: &str) -> (r: bool)
    ensures
        r == lists_origin(listing@),
{
    let lines = split_lines(listing);
    let origin = String::from_str("origin");
    let mut i: usize = 0;
    while i < lines.len()
        invariant
            lines@.len() == lines_of(listing@).len(),
            forall|k: int| 0 <= k < lines@.len() ==> (#[trigger] lines@[k])@ == lines_of(listing@)[k],
            origin@ == "origin"@,
            i <= lines.len(),
            forall|j: int| 0 <= j < i ==> #[trigger] lines_of(listing@)[j] != "origin"@,
        decreases lines.len() - i,
    {
        if lines[i] == origin {
            return true;
        }
        i += 1;
    }
    false
}

} // verus!
