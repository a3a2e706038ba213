//! What each line of a rendered spec says.

use vstd::prelude::*;

#[allow(unused_imports)]
use crate::errors::PyException;
#[allow(unused_imports)]
use crate::flow::Flow;
#[allow(unused_imports)]
use crate::json::pretty_json;
#[allow(unused_imports)]
use crate::render::{
    declaration_lines, labelled_lines, op_line, op_lines, render_spec, spec_sections, walk,
    walk_all,
};
#[allow(unused_imports)]
use crate::rendered::{lemma_line_view, line_views, RenderedSpec, RenderedSpecLine};
#[allow(unused_imports)]
use crate::spec::{FlowInstanceSpec, NamedSpec, OutputMode, ReactiveOpSpec};

verus! {

/// The text that belongs to the mode.
pub open spec fn text_in(mode: OutputMode, concise: String, verbose: String) -> Seq<char> {
    if mode == OutputMode::Verbose {
        verbose@
    } else {
        concise@
    }
}

/// `line` says `content`, and nothing stands below it.
pub open spec fn says_alone(line: RenderedSpecLine, content: Seq<char>) -> bool {
    line.content@ == content && line.children@.len() == 0
}

/// `line` says what `op` is called and formats to in `mode`, over as many lines as `op` nests
/// operations.
pub open spec fn says_op(
    line: RenderedSpecLine,
    op: NamedSpec<ReactiveOpSpec>,
    mode: OutputMode,
) -> bool {
    match op.spec {
        ReactiveOpSpec::ForEach(for_each) => {
            &&& line.content@ == op.name@ + seq![':', ' '] + text_in(
                mode,
                for_each.text.concise,
                for_each.text.verbose,
            )
            &&& line.children@.len() == for_each.op_scope.ops@.len()
        },
        ReactiveOpSpec::Leaf(text) => says_alone(
            line,
            op.name@ + seq![':', ' '] + text_in(mode, text.concise, text.verbose),
        ),
    }
}

/// The operations directly inside an operation.
pub open spec fn inner_ops(op: NamedSpec<ReactiveOpSpec>) -> Seq<NamedSpec<ReactiveOpSpec>> {
    match op.spec {
        ReactiveOpSpec::ForEach(for_each) => for_each.op_scope.ops@,
        ReactiveOpSpec::Leaf(_) => Seq::empty(),
    }
}

/// `path` leads to an operation: its first step picks one of `ops`, and each further step picks one
/// of the operations inside the operation before.
pub open spec fn is_op_path(ops: Seq<NamedSpec<ReactiveOpSpec>>, path: Seq<int>) -> bool
    decreases path.len(),
{
    &&& path.len() > 0
    &&& 0 <= path[0] < ops.len()
    &&& path.len() > 1 ==> is_op_path(inner_ops(ops[path[0]]), path.drop_first())
}

/// The operation that `path` leads to.
pub open spec fn op_at(
    ops: Seq<NamedSpec<ReactiveOpSpec>>,
    path: Seq<int>,
) -> NamedSpec<ReactiveOpSpec>
    decreases path.len(),
{
    if path.len() <= 1 {
        ops[path[0]]
    } else {
        op_at(inner_ops(ops[path[0]]), path.drop_first())
    }
}

/// The line that `path` leads to, by the same steps among lines and their children.
pub open spec fn line_at(lines: Seq<RenderedSpecLine>, path: Seq<int>) -> RenderedSpecLine
    decreases path.len(),
{
    if path.len() <= 1 {
        lines[path[0]]
    } else {
        line_at(lines[path[0]].children@, path.drop_first())
    }
}

/// `path` leads to a line.
pub open spec fn is_line_path(lines: Seq<RenderedSpecLine>, path: Seq<int>) -> bool
    decreases path.len(),
{
    &&& path.len() > 0
    &&& 0 <= path[0] < lines.len()
    &&& path.len() > 1 ==> is_line_path(lines[path[0]].children@, path.drop_first())
}

/// Lines that look the same as trees say the same, over the same number of children, which look the
/// same in turn.
pub proof fn lemma_line_trees_hide_nothing(one: RenderedSpecLine, other: RenderedSpecLine)
    requires
        one@ == other@,
    ensures
        one.content@ == other.content@,
        one.children@.len() == other.children@.len(),
        forall|i: int|
            0 <= i < one.children@.len() ==> (#[trigger] one.children@[i])@ == other.children@[i]@,
{
    lemma_line_view(one);
    lemma_line_view(other);
    assert(line_views(one.children@).len() == one.children@.len());
    assert(line_views(other.children@).len() == other.children@.len());
    assert forall|i: int| 0 <= i < one.children@.len() implies (#[trigger] one.children@[i])@
        == other.children@[i]@ by {
        assert(line_views(one.children@)[i] == one.children@[i]@);
        assert(line_views(other.children@)[i] == other.children@[i]@);
    }
}

/// A copy of a line says the same all the way down.
pub proof fn lemma_line_copies_are_faithful(line: RenderedSpecLine, copy: RenderedSpecLine)
    requires
        call_ensures(<RenderedSpecLine as Clone>::clone, (&line,), copy),
    ensures
        copy.content@ == line.content@,
        copy.children@.len() == line.children@.len(),
        forall|i: int|
            0 <= i < copy.children@.len() ==> (#[trigger] copy.children@[i])@
                == line.children@[i]@,
{
    lemma_line_trees_hide_nothing(copy, line);
}

/// A copy of a rendered spec has the same sections with the same lines.
pub proof fn lemma_spec_copies_are_faithful(spec: RenderedSpec, copy: RenderedSpec)
    requires
        call_ensures(<RenderedSpec as Clone>::clone, (&spec,), copy),
    ensures
        copy.sections@.len() == spec.sections@.len(),
        forall|i: int|
            0 <= i < copy.sections@.len() ==> {
                &&& (#[trigger] copy.sections@[i]).0@ == spec.sections@[i].0@
                &&& copy.sections@[i].1@.len() == spec.sections@[i].1@.len()
            },
        forall|i: int, j: int|
            0 <= i < copy.sections@.len() && 0 <= j < copy.sections@[i].1@.len() ==> (
            #[trigger] copy.sections@[i].1@[j])@ == spec.sections@[i].1@[j]@,
{
    assert(copy@.len() == copy.sections@.len());
    assert(spec@.len() == spec.sections@.len());
    assert forall|i: int| 0 <= i < copy.sections@.len() implies {
        &&& (#[trigger] copy.sections@[i]).0@ == spec.sections@[i].0@
        &&& copy.sections@[i].1@.len() == spec.sections@[i].1@.len()
    } by {
        lemma_section_of(copy, i);
        lemma_section_of(spec, i);
    }
    assert forall|i: int, j: int|
        0 <= i < copy.sections@.len() && 0 <= j < copy.sections@[i].1@.len() implies (
    #[trigger] copy.sections@[i].1@[j])@ == spec.sections@[i].1@[j]@ by {
        lemma_section_of(copy, i);
        lemma_section_of(spec, i);
        assert(copy@[i].lines[j] == copy.sections@[i].1@[j]@);
        assert(spec@[i].lines[j] == spec.sections@[i].1@[j]@);
    }
}

/// What stands in the section at `i`.
proof fn lemma_section_of(rendered: RenderedSpec, i: int)
    requires
        0 <= i < rendered.sections@.len(),
    ensures
        rendered@.len() == rendered.sections@.len(),
        rendered@[i].name == rendered.sections@[i].0@,
        rendered@[i].lines.len() == rendered.sections@[i].1@.len(),
        forall|j: int|
            0 <= j < rendered.sections@[i].1@.len() ==> (#[trigger] rendered.sections@[i].1@[j])@
                == rendered@[i].lines[j],
{
    assert(rendered@[i].lines == line_views(rendered.sections@[i].1@));
    assert forall|j: int| 0 <= j < rendered.sections@[i].1@.len() implies (
    #[trigger] rendered.sections@[i].1@[j])@ == rendered@[i].lines[j] by {
        assert(line_views(rendered.sections@[i].1@)[j] == rendered.sections@[i].1@[j]@);
    }
}

/// The lines under a line with the tree of an operation have the trees of the operations inside.
proof fn lemma_op_tree(line: RenderedSpecLine, op: NamedSpec<ReactiveOpSpec>, mode: OutputMode)
    requires
        line@ == op_line(op, mode),
    ensures
        says_op(line, op, mode),
        line.children@.len() == inner_ops(op).len(),
        forall|i: int|
            0 <= i < line.children@.len() ==> (#[trigger] line.children@[i])@ == op_line(
                inner_ops(op)[i],
                mode,
            ),
{
    lemma_line_view(line);
    reveal_strlit(": ");
    assert(": "@ =~= seq![':', ' ']);
    assert(line_views(line.children@).len() == line.children@.len());
    match op.spec {
        ReactiveOpSpec::ForEach(for_each) => {
            assert(line@.children == op_lines(for_each.op_scope.ops@, mode));
        },
        ReactiveOpSpec::Leaf(_) => {},
    }
    assert forall|i: int| 0 <= i < line.children@.len() implies (#[trigger] line.children@[i])@
        == op_line(inner_ops(op)[i], mode) by {
        assert(line_views(line.children@)[i] == line.children@[i]@);
        assert(op_lines(inner_ops(op), mode)[i] == op_line(inner_ops(op)[i], mode));
    }
}

/// Lines that stand for operations do so at every depth.
proof fn lemma_op_trees(
    lines: Seq<RenderedSpecLine>,
    ops: Seq<NamedSpec<ReactiveOpSpec>>,
    mode: OutputMode,
    path: Seq<int>,
)
    requires
        lines.len() == ops.len(),
        forall|i: int|
            0 <= i < lines.len() ==> (#[trigger] lines[i])@ == op_line(ops[i], mode),
    ensures
        is_line_path(lines, path) == is_op_path(ops, path),
        is_op_path(ops, path) ==> says_op(line_at(lines, path), op_at(ops, path), mode),
    decreases path.len(),
{
    if path.len() > 0 && 0 <= path[0] < ops.len() {
        lemma_op_tree(lines[path[0]], ops[path[0]], mode);
        if path.len() > 1 {
            lemma_op_trees(
                lines[path[0]].children@,
                inner_ops(ops[path[0]]),
                mode,
                path.drop_first(),
            );
        }
    }
}

/// An operation is rendered as a line that says its name and its text, over the lines of the
/// operations inside it, in their order and at every depth.
pub proof fn lemma_walk_tells_every_op(
    op: NamedSpec<ReactiveOpSpec>,
    mode: OutputMode,
    line: RenderedSpecLine,
    path: Seq<int>,
)
    requires
        call_ensures(walk, (&op, mode), line),
    ensures
        says_op(line, op, mode),
        is_line_path(line.children@, path) == is_op_path(inner_ops(op), path),
        is_op_path(inner_ops(op), path) ==> says_op(
            line_at(line.children@, path),
            op_at(inner_ops(op), path),
            mode,
        ),
{
    lemma_op_tree(line, op, mode);
    lemma_op_trees(line.children@, inner_ops(op), mode, path);
}

/// Operations are rendered one line each, in their order and at every depth.
pub proof fn lemma_walk_all_tells_every_op(
    ops: Vec<NamedSpec<ReactiveOpSpec>>,
    mode: OutputMode,
    lines: Vec<RenderedSpecLine>,
    path: Seq<int>,
)
    requires
        call_ensures(walk_all, (&ops, mode), lines),
    ensures
        lines@.len() == ops@.len(),
        is_line_path(lines@, path) == is_op_path(ops@, path),
        is_op_path(ops@, path) ==> says_op(line_at(lines@, path), op_at(ops@, path), mode),
{
    assert(line_views(lines@).len() == lines@.len());
    assert forall|i: int| 0 <= i < lines@.len() implies (#[trigger] lines@[i])@ == op_line(
        ops@[i],
        mode,
    ) by {
        assert(line_views(lines@)[i] == lines@[i]@);
        assert(op_lines(ops@, mode)[i] == op_line(ops@[i], mode));
    }
    lemma_op_trees(lines@, ops@, mode, path);
}

/// A rendered spec has four sections, whatever it renders.
pub open spec fn has_the_sections(rendered: RenderedSpec) -> bool {
    &&& rendered.sections@.len() == 4
    &&& rendered.sections@[0].0@ == "Source"@
    &&& rendered.sections@[1].0@ == "Processing"@
    &&& rendered.sections@[2].0@ == "Targets"@
    &&& rendered.sections@[3].0@ == "Declarations"@
}

/// In the section of the sources, the line of each import says its name and what it formats to in
/// `mode`; in that of the targets, so does the line of each export; and the line of each
/// declaration says what it formats to. There is one line for each, in their order, and none has
/// children.
pub open spec fn tells_each_part(
    rendered: RenderedSpec,
    spec: FlowInstanceSpec,
    mode: OutputMode,
) -> bool {
    let sections = rendered.sections@;
    &&& sections[0].1@.len() == spec.import_ops@.len()
    &&& forall|i: int|
        0 <= i < spec.import_ops@.len() ==> says_alone(
            #[trigger] sections[0].1@[i],
            "Import: name="@ + spec.import_ops@[i].name@ + seq![',', ' '] + text_in(
                mode,
                spec.import_ops@[i].spec.concise,
                spec.import_ops@[i].spec.verbose,
            ),
        )
    &&& sections[2].1@.len() == spec.export_ops@.len()
    &&& forall|i: int|
        0 <= i < spec.export_ops@.len() ==> says_alone(
            #[trigger] sections[2].1@[i],
            "Export: name="@ + spec.export_ops@[i].name@ + seq![',', ' '] + text_in(
                mode,
                spec.export_ops@[i].spec.concise,
                spec.export_ops@[i].spec.verbose,
            ),
        )
    &&& sections[3].1@.len() == spec.declarations@.len()
    &&& forall|i: int|
        0 <= i < spec.declarations@.len() ==> says_alone(
            #[trigger] sections[3].1@[i],
            "Declaration: "@ + text_in(
                mode,
                spec.declarations@[i].concise,
                spec.declarations@[i].verbose,
            ),
        )
}

/// In the processing section, where `path` leads to an operation it leads to that operation's line,
/// which says the operation's name and what it formats to in `mode`, over one line for each
/// operation that it nests; and it leads to no line without an operation.
pub open spec fn tells_op_at(
    rendered: RenderedSpec,
    spec: FlowInstanceSpec,
    mode: OutputMode,
    path: Seq<int>,
) -> bool {
    let lines = rendered.sections@[1].1@;
    &&& lines.len() == spec.reactive_ops@.len()
    &&& is_line_path(lines, path) == is_op_path(spec.reactive_ops@, path)
    &&& is_op_path(spec.reactive_ops@, path) ==> says_op(
        line_at(lines, path),
        op_at(spec.reactive_ops@, path),
        mode,
    )
}

proof fn lemma_each_part(spec: FlowInstanceSpec, mode: OutputMode, rendered: RenderedSpec)
    requires
        rendered@ == spec_sections(spec, mode),
    ensures
        has_the_sections(rendered),
        tells_each_part(rendered, spec, mode),
{
    assert(rendered@.len() == 4);
    assert(rendered.sections@.len() == rendered@.len());
    lemma_section_of(rendered, 0);
    lemma_section_of(rendered, 1);
    lemma_section_of(rendered, 2);
    lemma_section_of(rendered, 3);
    reveal_strlit(", ");
    reveal_strlit(": name=");
    reveal_strlit("Import");
    reveal_strlit("Export");
    reveal_strlit("Import: name=");
    reveal_strlit("Export: name=");
    assert(", "@ =~= seq![',', ' ']);
    assert("Import"@ + ": name="@ =~= "Import: name="@);
    assert("Export"@ + ": name="@ =~= "Export: name="@);
    assert forall|i: int| 0 <= i < spec.import_ops@.len() implies says_alone(
        #[trigger] rendered.sections@[0].1@[i],
        "Import: name="@ + spec.import_ops@[i].name@ + seq![',', ' '] + text_in(
            mode,
            spec.import_ops@[i].spec.concise,
            spec.import_ops@[i].spec.verbose,
        ),
    ) by {
        let line = rendered.sections@[0].1@[i];
        assert(line@ == labelled_lines("Import"@, spec.import_ops@, mode)[i]);
        lemma_line_view(line);
        assert(line_views(line.children@).len() == line.children@.len());
    }
    assert forall|i: int| 0 <= i < spec.export_ops@.len() implies says_alone(
        #[trigger] rendered.sections@[2].1@[i],
        "Export: name="@ + spec.export_ops@[i].name@ + seq![',', ' '] + text_in(
            mode,
            spec.export_ops@[i].spec.concise,
            spec.export_ops@[i].spec.verbose,
        ),
    ) by {
        let line = rendered.sections@[2].1@[i];
        assert(line@ == labelled_lines("Export"@, spec.export_ops@, mode)[i]);
        lemma_line_view(line);
        assert(line_views(line.children@).len() == line.children@.len());
    }
    assert forall|i: int| 0 <= i < spec.declarations@.len() implies says_alone(
        #[trigger] rendered.sections@[3].1@[i],
        "Declaration: "@ + text_in(
            mode,
            spec.declarations@[i].concise,
            spec.declarations@[i].verbose,
        ),
    ) by {
        let line = rendered.sections@[3].1@[i];
        assert(line@ == declaration_lines(spec.declarations@, mode)[i]);
        lemma_line_view(line);
        assert(line_views(line.children@).len() == line.children@.len());
    }
}

proof fn lemma_every_op(
    spec: FlowInstanceSpec,
    mode: OutputMode,
    rendered: RenderedSpec,
    path: Seq<int>,
)
    requires
        rendered@ == spec_sections(spec, mode),
    ensures
        tells_op_at(rendered, spec, mode, path),
{
    let lines = rendered.sections@[1].1@;
    assert(rendered@.len() == 4);
    assert(rendered.sections@.len() == rendered@.len());
    lemma_section_of(rendered, 1);
    assert(rendered@[1].lines == op_lines(spec.reactive_ops@, mode));
    assert forall|i: int| 0 <= i < lines.len() implies (#[trigger] lines[i])@ == op_line(
        spec.reactive_ops@[i],
        mode,
    ) by {
        assert(op_lines(spec.reactive_ops@, mode)[i] == op_line(spec.reactive_ops@[i], mode));
    }
    lemma_op_trees(lines, spec.reactive_ops@, mode, path);
}

/// Rendering a spec gives the four sections, which tell of every import, operation, export and
/// declaration in the mode that was asked for, and of nothing else.
pub proof fn lemma_rendering_tells_all(
    spec: FlowInstanceSpec,
    mode: OutputMode,
    rendered: RenderedSpec,
    path: Seq<int>,
)
    requires
        call_ensures(render_spec, (&spec, mode), rendered),
    ensures
        has_the_sections(rendered),
        tells_each_part(rendered, spec, mode),
        tells_op_at(rendered, spec, mode, path),
{
    lemma_each_part(spec, mode, rendered);
    lemma_every_op(spec, mode, rendered, path);
}

/// What Python gets of a flow's spec tells, in each section and at every depth, of the flow's own
/// operations and declarations: verbosely where that was asked for, and concisely where that was or
/// the mode was left open.
pub proof fn lemma_python_gets_the_spec(
    flow: Flow,
    output_mode: Option<OutputMode>,
    got: Result<RenderedSpec, PyException>,
    path: Seq<int>,
)
    requires
        call_ensures(Flow::get_spec, (&flow, output_mode), got),
    ensures
        got is Ok,
        has_the_sections(got->Ok_0),
        output_mode == Some(OutputMode::Verbose) ==> tells_each_part(
            got->Ok_0,
            flow.flow_instance,
            OutputMode::Verbose,
        ) && tells_op_at(got->Ok_0, flow.flow_instance, OutputMode::Verbose, path),
        output_mode != Some(OutputMode::Verbose) ==> tells_each_part(
            got->Ok_0,
            flow.flow_instance,
            OutputMode::Concise,
        ) && tells_op_at(got->Ok_0, flow.flow_instance, OutputMode::Concise, path),
{
    let mode = match output_mode {
        Some(mode) => mode,
        None => OutputMode::Concise,
    };
    lemma_each_part(flow.flow_instance, mode, got->Ok_0);
    lemma_every_op(flow.flow_instance, mode, got->Ok_0, path);
}

/// In the targets that Python gets, the line of each export says its name and its text in the mode
/// that was asked for.
pub proof fn lemma_targets_follow_the_mode(
    flow: Flow,
    mode: OutputMode,
    got: Result<RenderedSpec, PyException>,
    i: int,
)
    requires
        call_ensures(Flow::get_spec, (&flow, Some(mode)), got),
        0 <= i < flow.flow_instance.export_ops@.len(),
    ensures
        ({
            let op = flow.flow_instance.export_ops@[i];
            let content = got->Ok_0.sections@[2].1@[i].content@;
            &&& mode == OutputMode::Concise ==> content == "Export: name="@ + op.name@ + seq![
                ',',
                ' ',
            ] + op.spec.concise@
            &&& mode == OutputMode::Verbose ==> content == "Export: name="@ + op.name@ + seq![
                ',',
                ' ',
            ] + op.spec.verbose@
        }),
{
    lemma_each_part(flow.flow_instance, mode, got->Ok_0);
}

/// A flow goes by its own name, and both its texts are its own document, indented.
pub proof fn lemma_flow_texts_are_its_own(flow: Flow, name: &str, text: String, repr: String)
    requires
        call_ensures(Flow::name, (&flow,), name),
        call_ensures(Flow::__str__, (&flow,), text),
        call_ensures(Flow::__repr__, (&flow,), repr),
    ensures
        name@ == flow.flow_instance.name@,
        text@ == pretty_json(flow.flow_instance.document),
        repr@ == text@,
{
}

} // verus!
