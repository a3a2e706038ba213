//! What holds of every evaluation of a transient flow.

use vstd::prelude::*;

#[allow(unused_imports)]
use crate::json::pretty_json;
#[allow(unused_imports)]
use crate::schema::ValueType;
#[allow(unused_imports)]
use crate::transient::TransientFlow;

verus! {

/// As many arguments meet an input field as the smaller of the two counts says.
pub proof fn lemma_paired_is_the_smaller_count(flow: TransientFlow, arg_count: nat)
    ensures
        flow.paired(arg_count) <= arg_count,
        flow.paired(arg_count) <= flow.transient_flow_instance.input_fields@.len(),
        flow.paired(arg_count) == arg_count || flow.paired(arg_count)
            == flow.transient_flow_instance.input_fields@.len(),
{
}

/// Where the arguments are converted, there is one value for each argument that meets an input
/// field, none is left out, and each comes from the argument at its place by the type of the field
/// at its place.
pub proof fn lemma_each_argument_gives_its_value<A, V, E, F: Fn(&ValueType, &A) -> Result<V, E>>(
    flow: TransientFlow,
    args: Vec<A>,
    convert: F,
    values: Result<Vec<V>, E>,
)
    requires
        call_ensures(TransientFlow::input_values::<A, V, E, F>, (&flow, &args, convert), values),
        values is Ok,
    ensures
        values->Ok_0@.len() <= args@.len(),
        values->Ok_0@.len() <= flow.transient_flow_instance.input_fields@.len(),
        values->Ok_0@.len() == args@.len() || values->Ok_0@.len()
            == flow.transient_flow_instance.input_fields@.len(),
        args@.len() == flow.transient_flow_instance.input_fields@.len() ==> values->Ok_0@.len()
            == args@.len(),
        forall|i: int|
            0 <= i < values->Ok_0@.len() ==> call_ensures(
                convert,
                (&flow.transient_flow_instance.input_fields@[i].value_type.typ, &args@[i]),
                Ok(#[trigger] values->Ok_0@[i]),
            ),
{
}

/// The conversion of the argument at `i` can give `error`.
pub open spec fn can_fail_at<A, V, E, F: Fn(&ValueType, &A) -> Result<V, E>>(
    flow: TransientFlow,
    args: Seq<A>,
    convert: F,
    i: int,
    error: E,
) -> bool {
    call_ensures(
        convert,
        (&flow.transient_flow_instance.input_fields@[i].value_type.typ, &args[i]),
        Err::<V, E>(error),
    )
}

/// The conversion of the argument at `i` can give a value.
pub open spec fn can_succeed_at<A, V, E, F: Fn(&ValueType, &A) -> Result<V, E>>(
    flow: TransientFlow,
    args: Seq<A>,
    convert: F,
    i: int,
) -> bool {
    exists|value: V|
        call_ensures(
            convert,
            (&flow.transient_flow_instance.input_fields@[i].value_type.typ, &args[i]),
            Ok::<V, E>(value),
        )
}

/// Where converting fails, the error is that of an argument that meets an input field, and the
/// arguments before it could be converted.
pub proof fn lemma_failure_is_a_conversions_own<A, V, E, F: Fn(&ValueType, &A) -> Result<V, E>>(
    flow: TransientFlow,
    args: Vec<A>,
    convert: F,
    values: Result<Vec<V>, E>,
) -> (failed: int)
    requires
        call_ensures(TransientFlow::input_values::<A, V, E, F>, (&flow, &args, convert), values),
        values is Err,
    ensures
        0 <= failed < args@.len(),
        failed < flow.transient_flow_instance.input_fields@.len(),
        can_fail_at(flow, args@, convert, failed, values->Err_0),
        forall|i: int| 0 <= i < failed ==> #[trigger] can_succeed_at(flow, args@, convert, i),
{
    let failed = choose|failed: int| #[trigger]
        flow.fails_first_at(args@, convert, failed, values->Err_0);
    assert forall|i: int| 0 <= i < failed implies #[trigger] can_succeed_at(
        flow,
        args@,
        convert,
        i,
    ) by {
        assert(flow.converts_at(args@, convert, i));
    }
    failed
}

/// Where no argument that meets an input field can fail to be converted, converting succeeds.
pub proof fn lemma_sure_conversions_succeed<A, V, E, F: Fn(&ValueType, &A) -> Result<V, E>>(
    flow: TransientFlow,
    args: Vec<A>,
    convert: F,
    values: Result<Vec<V>, E>,
)
    requires
        call_ensures(TransientFlow::input_values::<A, V, E, F>, (&flow, &args, convert), values),
        forall|i: int, error: E|
            0 <= i < args@.len() && i < flow.transient_flow_instance.input_fields@.len()
                ==> !#[trigger] can_fail_at(flow, args@, convert, i, error),
    ensures
        values is Ok,
{
    if values is Err {
        let failed = lemma_failure_is_a_conversions_own(flow, args, convert, values);
        assert(can_fail_at(flow, args@, convert, failed, values->Err_0));
    }
}

/// Both texts of a transient flow are its own document, indented.
pub proof fn lemma_transient_texts_are_the_document(flow: TransientFlow, text: String, repr: String)
    requires
        call_ensures(TransientFlow::__str__, (&flow,), text),
        call_ensures(TransientFlow::__repr__, (&flow,), repr),
    ensures
        text@ == pretty_json(flow.transient_flow_instance.document),
        repr@ == text@,
{
}

} // verus!
