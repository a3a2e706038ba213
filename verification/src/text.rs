//! Building strings out of pieces.

use vstd::prelude::*;

verus! {

/// `left` followed by `right`.
pub fn concat2(left: &str, right: &str) -> (joined: String)
    ensures
        joined@ == left@ + right@,
{
    let mut joined = String::new();
    joined.append(left);
    joined.append(right);
    joined
}

/// `first`, `second` and `third`, one after the other.
pub fn concat3(first: &str, second: &str, third: &str) -> (joined: String)
    ensures
        joined@ == first@ + second@ + third@,
{
    let mut joined = concat2(first, second);
    joined.append(third);
    joined
}

/// The texts of `parts`, as sequences of characters.
pub open spec fn texts(parts: Seq<String>) -> Seq<Seq<char>> {
    Seq::new(parts.len(), |i: int| parts[i]@)
}

/// The parts in their order, with `separator` between each two neighbours.
pub open spec fn joined(parts: Seq<Seq<char>>, separator: Seq<char>) -> Seq<char>
    decreases parts.len(),
{
    if parts.len() == 0 {
        Seq::empty()
    } else if parts.len() == 1 {
        parts[0]
    } else {
        joined(parts.drop_last(), separator) + separator + parts.last()
    }
}

/// Joins `parts` with `separator` between them.
pub fn join(parts: &Vec<String>, separator: &str) -> (text: String)
    ensures
        text@ == joined(texts(parts@), separator@),
{
    let mut text = String::new();
    let ghost all = texts(parts@);
    for i in 0..parts.len()
        invariant
            all == texts(parts@),
            text@ == joined(all.take(i as int), separator@),
    {
        assert(all.take(i + 1).drop_last() =~= all.take(i as int));
        if i > 0 {
            text.append(separator);
        }
        text.append(parts[i].as_str());
        assert(text@ =~= joined(all.take(i + 1), separator@));
    }
    assert(all.take(parts@.len() as int) =~= all);
    text
}

} // verus!
