//! Named sections of lines, kept in the order in which they were first named.

use indexmap::IndexMap;
use vstd::prelude::*;

use crate::rendered::RenderedSpecLine;
#[allow(unused_imports)]
use crate::rendered::{line_views, section_views, Section};

verus! {

/// `indexmap::IndexMap`, a hash map that remembers the order of its keys.
/// Nothing is claimed of it here; what it holds is named by `entries_of`.
#[verifier::external_type_specification]
#[verifier::external_body]
#[verifier::reject_recursive_types(K)]
#[verifier::reject_recursive_types(V)]
#[verifier::reject_recursive_types(S)]
pub struct ExIndexMap<K, V, S>(IndexMap<K, V, S>);

/// What a map of sections holds: its entries, in the map's order.
pub uninterp spec fn entries_of(sections: IndexMap<String, Vec<RenderedSpecLine>>) -> Seq<Section>;

/// `IndexMap::new`: the new map holds nothing.
#[verifier::external_body]
pub(crate) fn new_sections() -> (sections: IndexMap<String, Vec<RenderedSpecLine>>)
    ensures
        entries_of(sections) == Seq::<Section>::empty(),
{
    IndexMap::new()
}

/// `IndexMap::insert`: where the map holds an entry under an equal key, that entry keeps
/// its key and its place, takes the new lines, and its former lines are returned. Where it holds
/// none, the new entry comes last, and `None` is returned.
#[verifier::external_body]
pub(crate) fn insert_section(
    sections: &mut IndexMap<String, Vec<RenderedSpecLine>>,
    name: String,
    lines: Vec<RenderedSpecLine>,
) -> (former: Option<Vec<RenderedSpecLine>>)
    ensures
        forall|i: int|
            0 <= i < entries_of(*old(sections)).len() && (#[trigger] entries_of(*old(sections))[i]).name
                == name@ ==> {
                &&& entries_of(*final(sections)) == entries_of(*old(sections)).update(
                    i,
                    (Section { name: name@, lines: line_views(lines@) }),
                )
                &&& former matches Some(before) && line_views(before@) == entries_of(
                    *old(sections),
                )[i].lines
            },
        (forall|i: int|
            0 <= i < entries_of(*old(sections)).len() ==> (#[trigger] entries_of(
                *old(sections),
            )[i]).name != name@) ==> {
            &&& entries_of(*final(sections)) == entries_of(*old(sections)).push(
                (Section { name: name@, lines: line_views(lines@) }),
            )
            &&& former is None
        },
{
    sections.insert(name, lines)
}

/// `IndexMap::into_iter`, collected: the entries come out in the map's order.
#[verifier::external_body]
pub(crate) fn into_section_list(sections: IndexMap<String, Vec<RenderedSpecLine>>) -> (list: Vec<
    (String, Vec<RenderedSpecLine>),
>)
    ensures
        section_views(list@) == entries_of(sections),
{
    sections.into_iter().collect()
}

} // verus!
