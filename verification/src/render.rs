//! Rendering the spec of a flow as sections of lines.

use vstd::prelude::*;

use crate::rendered::{RenderedSpec, RenderedSpecLine};
#[allow(unused_imports)]
use crate::rendered::{lemma_line_view, line_views, section_views, Line, Section};
#[allow(unused_imports)]
use crate::sections::entries_of;
use crate::sections::{insert_section, into_section_list, new_sections};
use crate::spec::{FlowInstanceSpec, NamedSpec, OutputMode, ReactiveOpSpec, SpecText};
use crate::text::{concat2, concat3};

verus! {

/// The line of one operation: its name and its text, over the lines of the operations it nests.
pub open spec fn op_line(op: NamedSpec<ReactiveOpSpec>, mode: OutputMode) -> Line
    decreases op,
{
    Line {
        content: op.name@ + ": "@ + op.spec.formatted(mode),
        children: match op.spec {
            ReactiveOpSpec::ForEach(for_each) => op_lines(for_each.op_scope.ops@, mode),
            ReactiveOpSpec::Leaf(_) => Seq::empty(),
        },
    }
}

/// The lines of `ops`, in their order.
pub open spec fn op_lines(ops: Seq<NamedSpec<ReactiveOpSpec>>, mode: OutputMode) -> Seq<Line>
    decreases ops,
{
    Seq::new(
        ops.len(),
        |i: int|
            if 0 <= i < ops.len() {
                op_line(ops[i], mode)
            } else {
                arbitrary()
            },
    )
}

/// The line of an operation that stands under a label: `label: name=..., text`.
pub open spec fn labelled_line(
    label: Seq<char>,
    op: NamedSpec<SpecText>,
    mode: OutputMode,
) -> Line {
    Line {
        content: label + ": name="@ + op.name@ + ", "@ + op.spec.formatted(mode),
        children: Seq::empty(),
    }
}

/// The labelled lines of `ops`, in their order.
pub open spec fn labelled_lines(
    label: Seq<char>,
    ops: Seq<NamedSpec<SpecText>>,
    mode: OutputMode,
) -> Seq<Line> {
    Seq::new(ops.len(), |i: int| labelled_line(label, ops[i], mode))
}

/// The line of a declaration.
pub open spec fn declaration_line(declaration: SpecText, mode: OutputMode) -> Line {
    Line { content: "Declaration: "@ + declaration.formatted(mode), children: Seq::empty() }
}

/// The lines of `declarations`, in their order.
pub open spec fn declaration_lines(declarations: Seq<SpecText>, mode: OutputMode) -> Seq<Line> {
    Seq::new(declarations.len(), |i: int| declaration_line(declarations[i], mode))
}

/// The sections of a flow's spec: where its data comes from, what is done with it, where it goes,
/// and what is declared besides.
pub open spec fn spec_sections(spec: FlowInstanceSpec, mode: OutputMode) -> Seq<Section> {
    seq![
        Section { name: "Source"@, lines: labelled_lines("Import"@, spec.import_ops@, mode) },
        Section { name: "Processing"@, lines: op_lines(spec.reactive_ops@, mode) },
        Section { name: "Targets"@, lines: labelled_lines("Export"@, spec.export_ops@, mode) },
        Section { name: "Declarations"@, lines: declaration_lines(spec.declarations@, mode) },
    ]
}

/// A line without children.
fn leaf_line(content: String) -> (line: RenderedSpecLine)
    ensures
        line@ == (Line { content: content@, children: Seq::empty() }),
{
    let line = RenderedSpecLine { content, children: Vec::new() };
    proof {
        lemma_line_view(line);
        assert(line@.children =~= Seq::empty());
    }
    line
}

/// Renders one operation and, below it, the operations it nests.
pub fn walk(op: &NamedSpec<ReactiveOpSpec>, mode: OutputMode) -> (line: RenderedSpecLine)
    ensures
        line@ == op_line(*op, mode),
    decreases *op,
{
    let text = op.spec.format(mode);
    let content = concat3(op.name.as_str(), ": ", text.as_str());
    let children = match &op.spec {
        ReactiveOpSpec::ForEach(for_each) => walk_all(&for_each.op_scope.ops, mode),
        ReactiveOpSpec::Leaf(_) => Vec::new(),
    };
    let line = RenderedSpecLine { content, children };
    proof {
        lemma_line_view(line);
        assert(line@.children =~= op_line(*op, mode).children);
    }
    line
}

/// Renders `ops`, in their order.
pub fn walk_all(ops: &Vec<NamedSpec<ReactiveOpSpec>>, mode: OutputMode) -> (lines: Vec<
    RenderedSpecLine,
>)
    ensures
        line_views(lines@) == op_lines(ops@, mode),
    decreases ops@,
{
    let mut lines: Vec<RenderedSpecLine> = Vec::new();
    for i in 0..ops.len()
        invariant
            lines@.len() == i,
            forall|j: int| 0 <= j < i ==> (#[trigger] lines@[j])@ == op_line(ops@[j], mode),
    {
        assert(decreases_to!(ops@ => ops@[i as int]));
        lines.push(walk(&ops[i], mode));
    }
    assert(line_views(lines@) =~= op_lines(ops@, mode));
    lines
}

/// Renders `ops` under a label, in their order.
fn render_labelled(label: &str, ops: &Vec<NamedSpec<SpecText>>, mode: OutputMode) -> (lines: Vec<
    RenderedSpecLine,
>)
    ensures
        line_views(lines@) == labelled_lines(label@, ops@, mode),
{
    let mut lines: Vec<RenderedSpecLine> = Vec::new();
    for i in 0..ops.len()
        invariant
            lines@.len() == i,
            forall|j: int|
                0 <= j < i ==> (#[trigger] lines@[j])@ == labelled_line(label@, ops@[j], mode),
    {
        let mut content = concat3(label, ": name=", ops[i].name.as_str());
        content.append(", ");
        let text = ops[i].spec.format(mode);
        content.append(text.as_str());
        lines.push(leaf_line(content));
    }
    assert(line_views(lines@) =~= labelled_lines(label@, ops@, mode));
    lines
}

/// Renders `declarations`, in their order.
fn render_declarations(declarations: &Vec<SpecText>, mode: OutputMode) -> (lines: Vec<
    RenderedSpecLine,
>)
    ensures
        line_views(lines@) == declaration_lines(declarations@, mode),
{
    let mut lines: Vec<RenderedSpecLine> = Vec::new();
    for i in 0..declarations.len()
        invariant
            lines@.len() == i,
            forall|j: int|
                0 <= j < i ==> (#[trigger] lines@[j])@ == declaration_line(declarations@[j], mode),
    {
        let text = declarations[i].format(mode);
        lines.push(leaf_line(concat2("Declaration: ", text.as_str())));
    }
    assert(line_views(lines@) =~= declaration_lines(declarations@, mode));
    lines
}

/// No two sections of a rendered spec share a name.
pub proof fn lemma_section_names_differ()
    ensures
        "Source"@ != "Processing"@,
        "Source"@ != "Targets"@,
        "Source"@ != "Declarations"@,
        "Processing"@ != "Targets"@,
        "Processing"@ != "Declarations"@,
        "Targets"@ != "Declarations"@,
{
    reveal_strlit("Source");
    reveal_strlit("Processing");
    reveal_strlit("Targets");
    reveal_strlit("Declarations");
    assert("Source"@[0] != "Processing"@[0]);
    assert("Source"@[0] != "Targets"@[0]);
    assert("Source"@[0] != "Declarations"@[0]);
    assert("Processing"@[0] != "Targets"@[0]);
    assert("Processing"@[0] != "Declarations"@[0]);
    assert("Targets"@[0] != "Declarations"@[0]);
}

/// Renders the spec of a flow.
pub fn render_spec(spec: &FlowInstanceSpec, mode: OutputMode) -> (rendered: RenderedSpec)
    ensures
        rendered@ == spec_sections(*spec, mode),
{
    proof {
        lemma_section_names_differ();
    }
    let mut sections = new_sections();
    let imports = render_labelled("Import", &spec.import_ops, mode);
    insert_section(&mut sections, "Source".to_string(), imports);
    insert_section(&mut sections, "Processing".to_string(), walk_all(&spec.reactive_ops, mode));
    let exports = render_labelled("Export", &spec.export_ops, mode);
    insert_section(&mut sections, "Targets".to_string(), exports);
    let declarations = render_declarations(&spec.declarations, mode);
    insert_section(&mut sections, "Declarations".to_string(), declarations);
    assert(entries_of(sections) =~= spec_sections(*spec, mode));
    RenderedSpec { sections: into_section_list(sections) }
}

} // verus!
