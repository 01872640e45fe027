//! Where one text stands inside another.

use vstd::prelude::*;

verus! {

/// `needle` stands in `hay` from position `at` on.
pub open spec fn occurs_at(hay: Seq<char>, needle: Seq<char>, at: int) -> bool {
    &&& 0 <= at
    &&& at + needle.len() <= hay.len()
    &&& hay.subrange(at, at + needle.len()) == needle
}

/// Each text of `parts` stands in `hay` at its position in `at`, and each
/// begins where the one before it has ended, or later.
pub open spec fn occur_in_order(hay: Seq<char>, parts: Seq<Seq<char>>, at: Seq<int>) -> bool {
    &&& at.len() == parts.len()
    &&& forall|i: int| 0 <= i < parts.len() ==> occurs_at(hay, #[trigger] parts[i], at[i])
    &&& forall|i: int, j: int|
        0 <= i < j < parts.len() ==> at[i] + (#[trigger] parts[i]).len() <= #[trigger] at[j]
}

/// `hay` holds every text of `parts` unchanged, in the order of `parts`
/// and without overlap.
pub open spec fn embeds_in_order(hay: Seq<char>, parts: Seq<Seq<char>>) -> bool {
    exists|at: Seq<int>| occur_in_order(hay, parts, at)
}

/// A text stands between what is written before and after it.
pub proof fn lemma_occurs_between(before: Seq<char>, needle: Seq<char>, after: Seq<char>)
    ensures
        occurs_at(before + needle + after, needle, before.len() as int),
{
    let hay = before + needle + after;
    assert(hay.subrange(before.len() as int, (before.len() + needle.len()) as int) =~= needle);
}

/// Every text holds no parts at all.
pub proof fn lemma_embeds_none(hay: Seq<char>)
    ensures
        embeds_in_order(hay, Seq::empty()),
{
    assert(occur_in_order(hay, Seq::empty(), Seq::empty()));
}

/// A text written as a head, one part and a tail holds that part.
pub proof fn lemma_embeds_one(head: Seq<char>, part: Seq<char>, tail: Seq<char>)
    ensures
        embeds_in_order(head + part + tail, seq![part]),
{
    let hay = head + part + tail;
    lemma_occurs_between(head, part, tail);
    let at = seq![head.len() as int];
    assert(occur_in_order(hay, seq![part], at));
}

/// A text written as a head, a part, a middle, a second part and a tail
/// holds both parts, the first before the second.
pub proof fn lemma_embeds_two(
    head: Seq<char>,
    first: Seq<char>,
    middle: Seq<char>,
    second: Seq<char>,
    tail: Seq<char>,
)
    ensures
        embeds_in_order(head + first + middle + second + tail, seq![first, second]),
{
    let hay = head + first + middle + second + tail;
    lemma_occurs_between(head, first, middle + second + tail);
    assert(hay =~= head + first + (middle + second + tail));
    lemma_occurs_between(head + first + middle, second, tail);
    let at = seq![head.len() as int, (head.len() + first.len() + middle.len()) as int];
    assert(occur_in_order(hay, seq![first, second], at));
}

} // verus!
