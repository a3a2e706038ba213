//! Flows that are evaluated on the spot, on values that Python passes in.

use vstd::prelude::*;

#[allow(unused_imports)]
use crate::json::pretty_json;
use crate::json::to_string_pretty;
use crate::schema::{FieldSchema, ValueType};

verus! {

/// The spec of a transient flow: the fields it takes, and the document that it is written as.
#[derive(Debug)]
pub struct TransientFlowInstance {
    pub input_fields: Vec<FieldSchema>,
    pub document: serde_json::Value,
}

/// A transient flow that has been analyzed.
#[derive(Debug)]
pub struct TransientFlow {
    pub transient_flow_instance: TransientFlowInstance,
}

impl TransientFlow {
    /// The type of the input field at `i`.
    pub open spec fn input_type(self, i: int) -> ValueType {
        self.transient_flow_instance.input_fields@[i].value_type.typ
    }

    /// How many of `arg_count` arguments meet an input field.
    pub open spec fn paired(self, arg_count: nat) -> int {
        let field_count = self.transient_flow_instance.input_fields@.len();
        if arg_count < field_count {
            arg_count as int
        } else {
            field_count as int
        }
    }

    /// The spec of the flow, as indented JSON.
    pub fn __str__(&self) -> (text: String)
        ensures
            text@ == pretty_json(self.transient_flow_instance.document),
    {
        to_string_pretty(&self.transient_flow_instance.document)
    }

    /// The same text as `__str__`.
    pub fn __repr__(&self) -> (text: String)
        ensures
            text@ == pretty_json(self.transient_flow_instance.document),
    {
        self.__str__()
    }

    /// Converts the arguments, each by the type of the input field at its place. Arguments
    /// beyond the last field are left alone, and so are fields beyond the last argument. The
    /// first conversion that fails ends it, with its error.
    pub fn input_values<A, V, E, F: Fn(&ValueType, &A) -> Result<V, E>>(
        &self,
        args: &Vec<A>,
        convert: F,
    ) -> (values: Result<Vec<V>, E>)
        requires
            forall|i: int|
                0 <= i < self.paired(args@.len()) ==> call_requires(
                    convert,
                    (&self.input_type(i), #[trigger] &args@[i]),
                ),
        ensures
            values matches Ok(converted) ==> {
                &&& converted@.len() == self.paired(args@.len())
                &&& converted@.len() <= args@.len()
                &&& converted@.len() <= self.transient_flow_instance.input_fields@.len()
                &&& converted@.len() == args@.len() || converted@.len()
                    == self.transient_flow_instance.input_fields@.len()
                &&& forall|i: int|
                    0 <= i < converted@.len() ==> call_ensures(
                        convert,
                        (&self.input_type(i), &args@[i]),
                        Ok(#[trigger] converted@[i]),
                    )
            },
            values is Err ==> exists|failed: int| #[trigger]
                self.fails_first_at(args@, convert, failed, values->Err_0),
    {
        let fields = &self.transient_flow_instance.input_fields;
        let count: usize = if args.len() < fields.len() {
            args.len()
        } else {
            fields.len()
        };
        let mut converted: Vec<V> = Vec::new();
        for i in 0..count
            invariant
                *fields == self.transient_flow_instance.input_fields,
                count == self.paired(args@.len()),
                forall|j: int|
                    0 <= j < count ==> call_requires(
                        convert,
                        (&self.input_type(j), #[trigger] &args@[j]),
                    ),
                converted@.len() == i,
                forall|j: int|
                    0 <= j < i ==> call_ensures(
                        convert,
                        (&self.input_type(j), &args@[j]),
                        Ok(#[trigger] converted@[j]),
                    ),
        {
            assert(call_requires(convert, (&self.input_type(i as int), &args@[i as int])));
            match convert(&fields[i].value_type.typ, &args[i]) {
                Ok(value) => {
                    converted.push(value);
                },
                Err(error) => {
                    assert(self.fails_first_at(args@, convert, i as int, error)) by {
                        assert forall|j: int| 0 <= j < i implies self.converts_at(
                            args@,
                            convert,
                            j,
                        ) by {
                            assert(call_ensures(
                                convert,
                                (&self.input_type(j), &args@[j]),
                                Ok(converted@[j]),
                            ));
                        }
                    }
                    let failure: Result<Vec<V>, E> = Err(error);
                    assert(self.fails_first_at(args@, convert, i as int, failure->Err_0));
                    return failure;
                },
            }
        }
        Ok(converted)
    }

    /// The argument at `i` can be converted.
    pub open spec fn converts_at<A, V, E, F: Fn(&ValueType, &A) -> Result<V, E>>(
        self,
        args: Seq<A>,
        convert: F,
        i: int,
    ) -> bool {
        exists|value: V|
            call_ensures(convert, (&self.input_type(i), &args[i]), Ok::<V, E>(value))
    }

    /// The conversion at `failed` can fail with `error`, after all those before it went well.
    pub open spec fn fails_first_at<A, V, E, F: Fn(&ValueType, &A) -> Result<V, E>>(
        self,
        args: Seq<A>,
        convert: F,
        failed: int,
        error: E,
    ) -> bool {
        &&& 0 <= failed < self.paired(args.len())
        &&& call_ensures(convert, (&self.input_type(failed), &args[failed]), Err::<V, E>(error))
        &&& forall|i: int| 0 <= i < failed ==> #[trigger] self.converts_at(args, convert, i)
    }
}

/// Arguments beyond the last input field make no difference: with or without them the same
/// conversions are due, and the same one is the first that can fail.
pub proof fn lemma_surplus_arguments_are_ignored<
    A,
    V,
    E,
    F: Fn(&ValueType, &A) -> Result<V, E>,
>(flow: TransientFlow, args: Seq<A>, surplus: Seq<A>, convert: F, failed: int, error: E)
    requires
        args.len() >= flow.transient_flow_instance.input_fields@.len(),
    ensures
        flow.paired((args + surplus).len()) == flow.paired(args.len()),
        flow.fails_first_at(args + surplus, convert, failed, error) == flow.fails_first_at(
            args,
            convert,
            failed,
            error,
        ),
{
    assert forall|i: int|
        #![trigger flow.converts_at(args, convert, i)]
        #![trigger flow.converts_at(args + surplus, convert, i)]
        0 <= i < flow.paired(args.len()) implies flow.converts_at(args + surplus, convert, i)
        == flow.converts_at(args, convert, i) by {
        assert((args + surplus)[i] == args[i]);
    }
    if 0 <= failed < flow.paired(args.len()) {
        assert((args + surplus)[failed] == args[failed]);
    }
}

} // verus!
