//! The moderation filter: which banned term, if any, a message holds.

use crate::text::{chars_of, contains_chars, has_substring};
use vstd::prelude::*;

verus! {

/// The first of `terms`, in listed order, that is a contiguous part of
/// `content`.
pub open spec fn first_match(content: Seq<char>, terms: Seq<Seq<char>>) -> Option<Seq<char>>
    decreases terms.len(),
{
    if terms.len() == 0 {
        None
    } else if has_substring(content, terms.first()) {
        Some(terms.first())
    } else {
        first_match(content, terms.drop_first())
    }
}

/// `terms[k]` is a part of `content` and no earlier term is.
pub open spec fn is_first_match(content: Seq<char>, terms: Seq<Seq<char>>, k: int) -> bool {
    &&& 0 <= k < terms.len()
    &&& has_substring(content, terms[k])
    &&& forall|j: int| 0 <= j < k ==> !has_substring(content, #[trigger] terms[j])
}

/// `first_match` is none exactly when no term is a part of the content, and
/// otherwise the term at the least index that is.
pub proof fn lemma_first_match(content: Seq<char>, terms: Seq<Seq<char>>)
    ensures
        first_match(content, terms) is None <==> forall|j: int|
            0 <= j < terms.len() ==> !has_substring(content, #[trigger] terms[j]),
        first_match(content, terms) is Some ==> exists|k: int|
            is_first_match(content, terms, k) && first_match(content, terms) == Some(terms[k]),
    decreases terms.len(),
{
    if terms.len() == 0 {
    } else if has_substring(content, terms.first()) {
        assert(is_first_match(content, terms, 0));
    } else {
        let rest = terms.drop_first();
        lemma_first_match(content, rest);
        assert forall|j: int| 0 <= j < rest.len() implies rest[j] == terms[j + 1] by {}
        if first_match(content, rest) is Some {
            let k = choose|k: int|
                is_first_match(content, rest, k) && first_match(content, rest) == Some(rest[k]);
            assert forall|j: int| 0 <= j < k + 1 implies !has_substring(
                content,
                #[trigger] terms[j],
            ) by {
                if j > 0 {
                    assert(terms[j] == rest[j - 1]);
                }
            }
            assert(is_first_match(content, terms, k + 1));
        } else {
            assert forall|j: int| 0 <= j < terms.len() implies !has_substring(
                content,
                #[trigger] terms[j],
            ) by {
                if j > 0 {
                    assert(terms[j] == rest[j - 1]);
                }
            }
        }
    }
}

/// Scans `banned_terms` in listed order and returns the first that `content`
/// holds as a literal substring: case-sensitive, with no regard to word
/// boundaries. Returns `None` where it holds none of them.
pub fn should_delete(content: &str, banned_terms: &[String]) -> (matched: Option<String>)
    ensures
        matched.deep_view() == first_match(content@, banned_terms.deep_view()),
{
    let hay = chars_of(content);
    let ghost terms = banned_terms.deep_view();
    let mut k: usize = 0;
    assert(terms.skip(0) =~= terms);
    while k < banned_terms.len()
        invariant
            k <= banned_terms.len(),
            hay@ == content@,
            terms == banned_terms.deep_view(),
            first_match(content@, terms) == first_match(content@, terms.skip(k as int)),
        decreases banned_terms.len() - k,
    {
        let needle = chars_of(banned_terms[k].as_str());
        assert(terms.skip(k as int).first() == banned_terms@[k as int]@);
        if contains_chars(&hay, &needle) {
            return Some(banned_terms[k].clone());
        }
        assert(terms.skip(k as int).drop_first() =~= terms.skip(k + 1));
        k = k + 1;
    }
    None
}

} // verus!
