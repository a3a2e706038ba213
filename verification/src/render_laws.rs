//! What holds of every rendered spec.

use vstd::prelude::*;

#[allow(unused_imports)]
use crate::flow::mode_or_default;
#[allow(unused_imports)]
use crate::render::{op_line, op_lines, spec_sections};
#[allow(unused_imports)]
use crate::rendered::{Line, Section};
#[allow(unused_imports)]
use crate::spec::{FlowInstanceSpec, NamedSpec, OutputMode, ReactiveOpSpec};

verus! {

/// How many operations there are in and under `ops`.
pub open spec fn op_count(ops: Seq<NamedSpec<ReactiveOpSpec>>) -> nat
    decreases ops,
{
    if ops.len() == 0 {
        0
    } else {
        op_count(ops.drop_last()) + 1 + match ops.last().spec {
            ReactiveOpSpec::ForEach(for_each) => op_count(for_each.op_scope.ops@),
            ReactiveOpSpec::Leaf(_) => 0,
        }
    }
}

/// How many lines there are in and under `lines`.
pub open spec fn line_count(lines: Seq<Line>) -> nat
    decreases lines,
{
    if lines.len() == 0 {
        0
    } else {
        line_count(lines.drop_last()) + 1 + line_count(lines.last().children)
    }
}

/// Two groups of lines nest in the same way, whatever they say.
pub open spec fn same_shape(one: Seq<Line>, other: Seq<Line>) -> bool
    decreases one,
{
    &&& one.len() == other.len()
    &&& forall|i: int|
        0 <= i < one.len() ==> same_shape((#[trigger] one[i]).children, other[i].children)
}

/// Operations are rendered one line each, nested ones included.
pub proof fn lemma_one_line_per_op(ops: Seq<NamedSpec<ReactiveOpSpec>>, mode: OutputMode)
    ensures
        line_count(op_lines(ops, mode)) == op_count(ops),
    decreases ops,
{
    let lines = op_lines(ops, mode);
    if ops.len() > 0 {
        let last = ops.last();
        assert(lines.drop_last() =~= op_lines(ops.drop_last(), mode));
        lemma_one_line_per_op(ops.drop_last(), mode);
        assert(lines.last() == op_line(last, mode));
        match last.spec {
            ReactiveOpSpec::ForEach(for_each) => {
                lemma_one_line_per_op(for_each.op_scope.ops@, mode);
                assert(lines.last().children == op_lines(for_each.op_scope.ops@, mode));
            },
            ReactiveOpSpec::Leaf(_) => {
                assert(line_count(lines.last().children) == 0);
            },
        }
    }
}

/// The output mode decides what the lines say, not how they nest.
pub proof fn lemma_mode_keeps_shape(
    ops: Seq<NamedSpec<ReactiveOpSpec>>,
    one: OutputMode,
    other: OutputMode,
)
    ensures
        same_shape(op_lines(ops, one), op_lines(ops, other)),
    decreases ops,
{
    let left = op_lines(ops, one);
    let right = op_lines(ops, other);
    assert forall|i: int| 0 <= i < left.len() implies same_shape(
        (#[trigger] left[i]).children,
        right[i].children,
    ) by {
        assert(left[i] == op_line(ops[i], one));
        assert(right[i] == op_line(ops[i], other));
        match ops[i].spec {
            ReactiveOpSpec::ForEach(for_each) => {
                lemma_mode_keeps_shape(for_each.op_scope.ops@, one, other);
            },
            ReactiveOpSpec::Leaf(_) => {},
        }
    }
}

/// Whatever the flow and the mode, the sections are the same four in the same order, and each has
/// a top line for each operation or declaration of its part of the flow.
pub proof fn lemma_sections_are_fixed(spec: FlowInstanceSpec, mode: OutputMode)
    ensures
        spec_sections(spec, mode).len() == 4,
        spec_sections(spec, mode)[0].name == "Source"@,
        spec_sections(spec, mode)[1].name == "Processing"@,
        spec_sections(spec, mode)[2].name == "Targets"@,
        spec_sections(spec, mode)[3].name == "Declarations"@,
        spec_sections(spec, mode)[0].lines.len() == spec.import_ops@.len(),
        spec_sections(spec, mode)[1].lines.len() == spec.reactive_ops@.len(),
        spec_sections(spec, mode)[2].lines.len() == spec.export_ops@.len(),
        spec_sections(spec, mode)[3].lines.len() == spec.declarations@.len(),
{
}

/// Only operations of the processing section nest: every other line is without children.
pub proof fn lemma_only_processing_nests(spec: FlowInstanceSpec, mode: OutputMode, s: int, i: int)
    requires
        0 <= s < spec_sections(spec, mode).len(),
        s != 1,
        0 <= i < spec_sections(spec, mode)[s].lines.len(),
    ensures
        spec_sections(spec, mode)[s].lines[i].children.len() == 0,
{
}

/// Leaving the mode open is asking for the concise one.
pub proof fn lemma_open_mode_is_concise(spec: FlowInstanceSpec)
    ensures
        spec_sections(spec, mode_or_default(None)) == spec_sections(
            spec,
            mode_or_default(Some(OutputMode::Concise)),
        ),
{
}

} // verus!
