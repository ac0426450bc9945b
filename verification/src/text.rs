//! Text helpers shared by the message builders and the statements about them.

use vstd::prelude::*;
use vstd::string::StringExecFns;

verus! {

/// `needle` occurs in `hay` as a contiguous run of characters.
pub open spec fn contains(hay: Seq<char>, needle: Seq<char>) -> bool {
    exists|i: int|
        0 <= i && i + needle.len() <= hay.len() && #[trigger] hay.subrange(
            i,
            i + needle.len(),
        ) == needle
}

/// What occurs in a part of a text occurs in the text.
pub proof fn lemma_contains_within(
    hay: Seq<char>,
    before: Seq<char>,
    part: Seq<char>,
    after: Seq<char>,
    needle: Seq<char>,
)
    requires
        hay =~= before + part + after,
        contains(part, needle),
    ensures
        contains(hay, needle),
{
    let j = choose|j: int|
        0 <= j && j + needle.len() <= part.len() && #[trigger] part.subrange(j, j + needle.len())
            == needle;
    let i = before.len() + j;
    assert(hay.subrange(i, i + needle.len()) =~= part.subrange(j, j + needle.len()));
}

/// Every text occurs in itself.
pub proof fn lemma_contains_self(text: Seq<char>)
    ensures
        contains(text, text),
{
    assert(text.subrange(0int, 0int + text.len()) =~= text);
}

/// Whether two strings hold the same characters, case included.
pub fn same_text(left: &str, right: &str) -> (same: bool)
    ensures
        same == (left@ == right@),
{
    String::from_str(left) == String::from_str(right)
}

} // verus!
