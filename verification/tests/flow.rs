use cocoindex_engine::flow::Flow;
use cocoindex_engine::rendered::RenderedSpecLine;
use cocoindex_engine::schema::{FlowSchema, StructSchema};
use cocoindex_engine::setup::{make_drop_bundle, make_setup_bundle, FlowSetupChangeAction};
use cocoindex_engine::spec::{
    FlowInstanceSpec, ForEachOpSpec, NamedSpec, OutputMode, ReactiveOpScope, ReactiveOpSpec,
    SpecText,
};

fn text(concise: &str, verbose: &str) -> SpecText {
    SpecText {
        concise: concise.to_string(),
        verbose: verbose.to_string(),
    }
}

fn named<S>(name: &str, spec: S) -> NamedSpec<S> {
    NamedSpec {
        name: name.to_string(),
        spec,
    }
}

fn leaf(name: &str, concise: &str) -> NamedSpec<ReactiveOpSpec> {
    let verbose = format!("{concise} in full");
    named(name, ReactiveOpSpec::Leaf(text(concise, &verbose)))
}

fn for_each(
    name: &str,
    concise: &str,
    ops: Vec<NamedSpec<ReactiveOpSpec>>,
) -> NamedSpec<ReactiveOpSpec> {
    let verbose = format!("{concise} in full");
    named(
        name,
        ReactiveOpSpec::ForEach(ForEachOpSpec {
            text: text(concise, &verbose),
            op_scope: ReactiveOpScope { ops },
        }),
    )
}

fn sample() -> Flow {
    Flow {
        flow_instance: FlowInstanceSpec {
            name: "TextEmbedding".to_string(),
            import_ops: vec![named(
                "documents",
                text("source=LocalFile", "source=LocalFile, path=docs"),
            )],
            reactive_ops: vec![
                for_each(
                    "rows",
                    "ForEach",
                    vec![
                        leaf("chunks", "Transform"),
                        for_each("chunk_rows", "ForEach", vec![leaf("embed", "Transform")]),
                        leaf("collect", "Collect"),
                    ],
                ),
                leaf("tail", "Transform"),
            ],
            export_ops: vec![named("doc_embeddings", text("target=Postgres", "long"))],
            declarations: vec![text("Neo4j", "Neo4j, all of it")],
            document: serde_json::from_str(r#"{"name":"TextEmbedding","a":[1,true]}"#).unwrap(),
        },
        data_schema: FlowSchema {
            schema: StructSchema { fields: vec![] },
        },
    }
}

fn empty() -> Flow {
    Flow {
        flow_instance: FlowInstanceSpec {
            name: String::new(),
            import_ops: vec![],
            reactive_ops: vec![],
            export_ops: vec![],
            declarations: vec![],
            document: serde_json::Value::Null,
        },
        data_schema: FlowSchema {
            schema: StructSchema { fields: vec![] },
        },
    }
}

fn flatten(lines: &[RenderedSpecLine], depth: usize, out: &mut Vec<(usize, String)>) {
    for line in lines {
        out.push((depth, line.content.clone()));
        flatten(&line.children, depth + 1, out);
    }
}

fn lines_of(flow: &Flow, mode: Option<OutputMode>) -> Vec<(String, Vec<(usize, String)>)> {
    flow.get_spec(mode)
        .unwrap()
        .sections
        .iter()
        .map(|(name, lines)| {
            let mut out = Vec::new();
            flatten(lines, 0, &mut out);
            (name.clone(), out)
        })
        .collect()
}

fn line(depth: usize, content: &str) -> (usize, String) {
    (depth, content.to_string())
}

#[test]
fn renders_every_section_concisely() {
    assert_eq!(
        lines_of(&sample(), Some(OutputMode::Concise)),
        vec![
            (
                "Source".to_string(),
                vec![line(0, "Import: name=documents, source=LocalFile")]
            ),
            (
                "Processing".to_string(),
                vec![
                    line(0, "rows: ForEach"),
                    line(1, "chunks: Transform"),
                    line(1, "chunk_rows: ForEach"),
                    line(2, "embed: Transform"),
                    line(1, "collect: Collect"),
                    line(0, "tail: Transform"),
                ]
            ),
            (
                "Targets".to_string(),
                vec![line(0, "Export: name=doc_embeddings, target=Postgres")]
            ),
            (
                "Declarations".to_string(),
                vec![line(0, "Declaration: Neo4j")]
            ),
        ]
    );
}

#[test]
fn renders_verbosely_with_the_same_shape() {
    let concise = lines_of(&sample(), Some(OutputMode::Concise));
    let verbose = lines_of(&sample(), Some(OutputMode::Verbose));
    assert_eq!(
        verbose[0].1,
        vec![line(0, "Import: name=documents, source=LocalFile, path=docs")]
    );
    assert_eq!(verbose[1].1[3], line(2, "embed: Transform in full"));
    assert_eq!(verbose[3].1, vec![line(0, "Declaration: Neo4j, all of it")]);
    for (left, right) in concise.iter().zip(verbose.iter()) {
        assert_eq!(left.0, right.0);
        let depths: Vec<usize> = left.1.iter().map(|l| l.0).collect();
        let others: Vec<usize> = right.1.iter().map(|l| l.0).collect();
        assert_eq!(depths, others);
    }
}

#[test]
fn an_open_mode_is_the_concise_one() {
    assert_eq!(
        lines_of(&sample(), None),
        lines_of(&sample(), Some(OutputMode::Concise))
    );
}

#[test]
fn one_line_for_each_op() {
    let sections = lines_of(&sample(), None);
    assert_eq!(sections[1].1.len(), 6);
}

#[test]
fn an_empty_flow_keeps_its_sections() {
    let sections = lines_of(&empty(), None);
    let names: Vec<&str> = sections.iter().map(|s| s.0.as_str()).collect();
    assert_eq!(names, vec!["Source", "Processing", "Targets", "Declarations"]);
    assert!(sections.iter().all(|s| s.1.is_empty()));
}

#[test]
fn prints_its_document_indented() {
    let flow = sample();
    let expected = "{\n  \"name\": \"TextEmbedding\",\n  \"a\": [\n    1,\n    true\n  ]\n}";
    assert_eq!(flow.__str__(), expected);
    assert_eq!(flow.__repr__(), expected);
}

#[test]
fn knows_its_name() {
    assert_eq!(sample().name(), "TextEmbedding");
}

#[test]
fn actions_are_bundles_of_the_flow_alone() {
    let flow = sample();
    let setup = flow.make_setup_action();
    assert_eq!(setup.action, FlowSetupChangeAction::Setup);
    assert_eq!(setup.flow_names, vec!["TextEmbedding"]);
    let drop = flow.make_drop_action();
    assert_eq!(drop.action, FlowSetupChangeAction::Drop);
    assert_eq!(drop.flow_names, vec!["TextEmbedding"]);

    let same = make_setup_bundle(vec!["TextEmbedding".to_string()]).unwrap();
    assert_eq!(same.action, setup.action);
    assert_eq!(same.flow_names, setup.flow_names);
    let same = make_drop_bundle(vec!["TextEmbedding".to_string()]).unwrap();
    assert_eq!(same.action, drop.action);
    assert_eq!(same.flow_names, drop.flow_names);
}

#[test]
fn a_rendered_spec_can_be_copied() {
    let rendered = sample().get_spec(None).unwrap();
    let copy = rendered.clone();
    assert_eq!(format!("{copy:?}"), format!("{rendered:?}"));
    assert_eq!(copy.sections[1].1[0].children[1].children[0].content, "embed: Transform");
}
