//! What holds of every joined text and of every formatted spec.

use vstd::prelude::*;

#[allow(unused_imports)]
use crate::spec::{OutputMode, ReactiveOpSpec, SpecText};
#[allow(unused_imports)]
use crate::text::{concat2, concat3, join, joined, texts};

verus! {

/// `longer` is `parts` with `last` behind them.
pub open spec fn extends_by(parts: Seq<String>, longer: Seq<String>, last: Seq<char>) -> bool {
    &&& longer.len() == parts.len() + 1
    &&& forall|i: int| 0 <= i < parts.len() ==> (#[trigger] longer[i])@ == parts[i]@
    &&& longer[parts.len() as int]@ == last
}

/// Nothing joined is nothing.
pub proof fn lemma_join_of_none(parts: Vec<String>, separator: &str, text: String)
    requires
        call_ensures(join, (&parts, separator), text),
        parts@.len() == 0,
    ensures
        text@.len() == 0,
{
    assert(texts(parts@).len() == 0);
}

/// A single part is joined to itself alone.
pub proof fn lemma_join_of_one(parts: Vec<String>, separator: &str, text: String)
    requires
        call_ensures(join, (&parts, separator), text),
        parts@.len() == 1,
    ensures
        text@ == parts@[0]@,
{
    assert(texts(parts@)[0] == parts@[0]@);
}

/// One more part adds the separator and itself at the end.
pub proof fn lemma_join_of_one_more(
    parts: Vec<String>,
    longer: Vec<String>,
    last: Seq<char>,
    separator: &str,
    text: String,
    longer_text: String,
)
    requires
        call_ensures(join, (&parts, separator), text),
        call_ensures(join, (&longer, separator), longer_text),
        parts@.len() > 0,
        extends_by(parts@, longer@, last),
    ensures
        longer_text@ == text@ + separator@ + last,
{
    lemma_joined_grows(parts@, longer@, last, separator@);
}

/// The same of the sequences that `join` speaks of: nothing is joined to nothing, one part to
/// itself, and one more part adds the separator and itself.
pub proof fn lemma_joined_grows(
    parts: Seq<String>,
    longer: Seq<String>,
    last: Seq<char>,
    separator: Seq<char>,
)
    requires
        extends_by(parts, longer, last),
    ensures
        parts.len() == 0 ==> joined(texts(parts), separator) == Seq::<char>::empty(),
        parts.len() == 0 ==> joined(texts(longer), separator) == last,
        parts.len() > 0 ==> joined(texts(longer), separator) == joined(texts(parts), separator)
            + separator + last,
{
    assert(texts(longer).drop_last() =~= texts(parts));
    assert(texts(longer).last() == last);
}

/// Parts that read the same are joined to the same text.
pub proof fn lemma_joined_by_text(one: Seq<String>, other: Seq<String>, separator: Seq<char>)
    requires
        one.len() == other.len(),
        forall|i: int| 0 <= i < one.len() ==> (#[trigger] one[i])@ == other[i]@,
    ensures
        joined(texts(one), separator) == joined(texts(other), separator),
{
    assert(texts(one) =~= texts(other));
}

/// Concatenating keeps every piece whole and in its order.
pub proof fn lemma_concat_keeps_pieces(
    first: &str,
    second: &str,
    third: &str,
    pair: String,
    all: String,
)
    requires
        call_ensures(concat2, (first, second), pair),
        call_ensures(concat3, (first, second, third), all),
    ensures
        pair@ == first@ + second@,
        all@ == pair@ + third@,
{
}

/// A spec formats to its concise text when that is asked for, and to its verbose text when that is.
pub proof fn lemma_format_follows_mode(spec: SpecText, mode: OutputMode, text: String)
    requires
        call_ensures(SpecText::format, (&spec, mode), text),
    ensures
        mode is Concise ==> text@ == spec.concise@,
        mode is Verbose ==> text@ == spec.verbose@,
{
}

/// An operation formats to its own text, whether it nests others or not.
pub proof fn lemma_op_format_follows_mode(spec: ReactiveOpSpec, mode: OutputMode, text: String)
    requires
        call_ensures(ReactiveOpSpec::format, (&spec, mode), text),
    ensures
        spec is ForEach && mode is Concise ==> text@ == spec->ForEach_0.text.concise@,
        spec is ForEach && mode is Verbose ==> text@ == spec->ForEach_0.text.verbose@,
        spec is Leaf && mode is Concise ==> text@ == spec->Leaf_0.concise@,
        spec is Leaf && mode is Verbose ==> text@ == spec->Leaf_0.verbose@,
{
}

} // verus!
