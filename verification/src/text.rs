//! String helpers shared by the parsing and rendering modules.

use vstd::prelude::*;

verus! {

/// True when `needle` occurs contiguously inside `hay`.
pub open spec fn is_substring(needle: Seq<char>, hay: Seq<char>) -> bool {
    exists|i: int|
        0 <= i && i + needle.len() <= hay.len() && #[trigger] hay.subrange(i, i + needle.len())
            == needle
}

/// Equality of two string slices, decided through owned strings so that the
/// result is pinned to the character sequences.
pub fn str_eq(a: &str, b: &str) -> (r: bool)
    ensures
        r == (a@ == b@),
{
    let x: String = a.to_owned();
    let y: String = b.to_owned();
    x == y
}

/// A sequence placed between two others is a substring of the whole.
pub proof fn lemma_substring_at(pre: Seq<char>, needle: Seq<char>, post: Seq<char>)
    ensures
        is_substring(needle, pre + needle + post),
{
    let hay = pre + needle + post;
    let i = pre.len() as int;
    assert(hay.subrange(i, i + needle.len()) =~= needle);
}

/// A substring of the middle part is a substring of the whole.
pub proof fn lemma_substring_in_context(
    needle: Seq<char>,
    pre: Seq<char>,
    mid: Seq<char>,
    post: Seq<char>,
)
    requires
        is_substring(needle, mid),
    ensures
        is_substring(needle, pre + mid + post),
{
    let hay = pre + mid + post;
    let j = choose|j: int|
        0 <= j && j + needle.len() <= mid.len() && #[trigger] mid.subrange(j, j + needle.len())
            == needle;
    let i = pre.len() + j;
    assert(hay.subrange(i, i + needle.len()) =~= needle);
}

} // verus!
