//! Small helpers on text: joining two strings, and what it means for one
//! sequence of characters to occur inside another.

use vstd::prelude::*;

verus! {

/// `needle` occurs in `hay` starting at position `at`.
pub open spec fn occurs_at(hay: Seq<char>, needle: Seq<char>, at: int) -> bool {
    &&& 0 <= at
    &&& at + needle.len() <= hay.len()
    &&& hay.subrange(at, at + needle.len()) == needle
}

/// `needle` occurs somewhere in `hay`, character for character.
pub open spec fn occurs_in(hay: Seq<char>, needle: Seq<char>) -> bool {
    exists|at: int| occurs_at(hay, needle, at)
}

/// A text still occurs in what results from putting another text before
/// it, right behind that other text.
pub proof fn lemma_occurs_behind(before: Seq<char>, needle: Seq<char>)
    ensures
        occurs_at(before + needle, needle, before.len() as int),
        occurs_in(before + needle, needle),
{
    let hay = before + needle;
    let at = before.len() as int;
    assert(hay.subrange(at, at + needle.len()) =~= needle);
    assert(occurs_at(hay, needle, at));
}

/// Four texts in a row are the same text however the last two are grouped.
pub proof fn lemma_regroup(a: Seq<char>, b: Seq<char>, c: Seq<char>, d: Seq<char>)
    ensures
        a + b + c + d == (a + b) + (c + d),
{
    assert(a + b + c + d =~= (a + b) + (c + d));
}

/// A new string that holds `head` followed by `tail`.
pub fn join(head: &str, tail: &str) -> (joined: String)
    ensures
        joined@ == head@ + tail@,
{
    let mut joined = String::from_str(head);
    joined.append(tail);
    joined
}

} // verus!
