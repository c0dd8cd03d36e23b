//! Occurrences of one text inside another.

use vstd::prelude::*;

verus! {

/// `part` stands in `text` starting at index `at`.
pub open spec fn occurs_at(text: Seq<char>, part: Seq<char>, at: int) -> bool {
    &&& 0 <= at
    &&& at + part.len() <= text.len()
    &&& text.subrange(at, at + part.len()) == part
}

/// `part` stands somewhere in `text`, as a run of consecutive characters.
pub open spec fn occurs_in(text: Seq<char>, part: Seq<char>) -> bool {
    exists|at: int| occurs_at(text, part, at)
}

/// A text put together from three pieces holds the middle one right after the first.
pub proof fn lemma_occurs_between(before: Seq<char>, part: Seq<char>, after: Seq<char>)
    ensures
        occurs_at(before + part + after, part, before.len() as int),
        occurs_in(before + part + after, part),
{
    let whole = before + part + after;
    let at = before.len() as int;
    assert(whole.subrange(at, at + part.len()) =~= part);
}

/// What stands in a part of a text stands in the text.
pub proof fn lemma_occurs_within(text: Seq<char>, part: Seq<char>, piece: Seq<char>)
    requires
        occurs_in(text, part),
        occurs_in(part, piece),
    ensures
        occurs_in(text, piece),
{
    let outer = choose|at: int| occurs_at(text, part, at);
    let inner = choose|at: int| occurs_at(part, piece, at);
    let at = outer + inner;
    assert(text.subrange(at, at + piece.len()) =~= text.subrange(
        outer,
        outer + part.len(),
    ).subrange(inner, inner + piece.len()));
    assert(occurs_at(text, piece, at));
}

} // verus!
