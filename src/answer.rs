//! Operator answers: repository visibility and yes/no consent.
use vstd::prelude::*;
use crate::text::{folds_to, is_word, is_word_exec};

verus! {

/// Who can read the hosted repository.
#[derive(Clone, Copy, Debug, PartialEq, Eq, Structural)]
pub enum Visibility {
    Public,
    Private,
}

/// The command-line flag that asks for a visibility.
pub open spec fn flag_of(v: Visibility) -> Seq<char> {
    match v {
        Visibility::Public => "--public"@,
        Visibility::Private => "--private"@,
    }
}

impl Visibility {
    /// The creation flag for this visibility.
    pub fn flag(&self) -> (r: String)
        ensures
            r@ == flag_of(*self),
    {
        match self {
            Visibility::Public => String::from_str("--public"),
            Visibility::Private => String::from_str("--private"),
        }
    }
}

/// An explicit yes.
pub open spec fn is_yes(a: Seq<char>) -> bool {
    is_word(a, "y"@) || is_word(a, "yes"@)
}

/// An explicit no.
pub open spec fn is_no(a: Seq<char>) -> bool {
    is_word(a, "n"@) || is_word(a, "no"@)
}

/// The visibility a (trimmed) answer asks for: empty, yes or `public` give
/// public, no or `private` give private, anything else none.
pub open spec fn visibility_of(a: Seq<char>) -> Option<Visibility> {
    if a.len() == 0 || is_yes(a) || is_word(a, "public"@) {
        Some(Visibility::Public)
    } else if is_no(a) || is_word(a, "private"@) {
        Some(Visibility::Private)
    } else {
        None
    }
}

fn yes(a: &str) -> (r: bool)
    ensures
        r == is_yes(a@),
{
    is_word_exec(a, "y") || is_word_exec(a, "yes")
}

/// Reads a trimmed answer to the visibility question; `None` asks again.
pub fn parse_visibility(answer: &str) -> (r: Option<Visibility>)
    ensures
        r == visibility_of(answer@),
{
    if answer.unicode_len() == 0 || yes(answer) || is_word_exec(answer, "public") {
        Some(Visibility::Public)
    } else if is_word_exec(answer, "n") || is_word_exec(answer, "no") || is_word_exec(
        answer,
        "private",
    ) {
        Some(Visibility::Private)
    } else {
        None
    }
}

/// Whether a trimmed answer agrees to installing the hosting tool: only an
/// explicit yes does.
pub fn install_consent(answer: &str) -> (r: bool)
    ensures
        r == is_yes(answer@),
{
    yes(answer)
}

/// Whether a trimmed answer agrees to linking the working copy: an empty answer
/// or an explicit yes does.
pub fn link_consent(answer: &str) -> (r: bool)
    ensures
        r == (answer@.len() == 0 || is_yes(answer@)),
{
    answer.unicode_len() == 0 || yes(answer)
}

/// Empty and affirmative answers give a public repository, a negative one a
/// private repository, and any other answer none, so the question is asked again.
pub proof fn visibility_answers(a: Seq<char>)
    ensures
        (a.len() == 0 || is_yes(a)) ==> visibility_of(a) == Some(Visibility::Public),
        is_no(a) ==> visibility_of(a) == Some(Visibility::Private),
        !(a.len() == 0 || is_yes(a) || is_no(a) || is_word(a, "public"@) || is_word(
            a,
            "private"@,
        )) ==> visibility_of(a).is_none(),
{
    reveal_strlit("y");
    reveal_strlit("yes");
    reveal_strlit("n");
    reveal_strlit("no");
    reveal_strlit("public");
    reveal_strlit("private");
    if is_no(a) {
        assert(!is_word(a, "y"@) && !is_word(a, "yes"@) && !is_word(a, "public"@)) by {
            assert(folds_to(a[0], 'n'));
        }
    }
}

} // verus!
