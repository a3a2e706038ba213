//! JSON documents and their text.

use vstd::prelude::*;

verus! {

/// `serde_json::Value`, a JSON document. It is carried through as it is.
#[verifier::external_type_specification]
#[verifier::external_body]
pub struct ExJsonValue(serde_json::Value);

/// The text that `serde_json::to_string_pretty` gives of a document.
pub uninterp spec fn pretty_json(document: serde_json::Value) -> Seq<char>;

/// `serde_json::to_string_pretty`, on a document: the text is a function of the document alone.
/// Every object of a document is keyed by strings, and every number in it is one that JSON can
/// write, so the call has no way to fail here.
#[verifier::external_body]
pub(crate) fn to_string_pretty(document: &serde_json::Value) -> (text: String)
    ensures
        text@ == pretty_json(*document),
{
    serde_json::to_string_pretty(document).unwrap()
}

} // verus!
