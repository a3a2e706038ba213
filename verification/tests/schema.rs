use cocoindex_engine::flow::Flow;
use cocoindex_engine::schema::{
    process_fields, BasicValueType, EnrichedValueType, FieldSchema, FlowSchema, StructSchema,
    TableKind, TableSchema, ValueType,
};
use cocoindex_engine::spec::FlowInstanceSpec;

fn field(name: &str, typ: ValueType, nullable: bool, attrs: &[&str]) -> FieldSchema {
    FieldSchema {
        name: name.to_string(),
        value_type: EnrichedValueType {
            typ,
            nullable,
            attrs: attrs.iter().map(|a| a.to_string()).collect(),
        },
    }
}

fn basic(text: &str) -> ValueType {
    ValueType::Basic(BasicValueType {
        text: text.to_string(),
    })
}

fn nested(fields: Vec<FieldSchema>) -> ValueType {
    ValueType::Struct(StructSchema { fields })
}

fn table(kind: &str, fields: Vec<FieldSchema>) -> ValueType {
    ValueType::Table(TableSchema {
        kind: TableKind {
            text: kind.to_string(),
        },
        row: StructSchema { fields },
    })
}

fn sample() -> Vec<FieldSchema> {
    vec![
        field(
            "documents",
            table(
                "KTable",
                vec![
                    field("filename", basic("Str"), false, &[]),
                    field(
                        "chunks",
                        table(
                            "UTable",
                            vec![field("vec", basic("Vector[Float32]"), true, &["a", "b", "c"])],
                        ),
                        true,
                        &["only"],
                    ),
                ],
            ),
            false,
            &[],
        ),
        field(
            "meta",
            nested(vec![field("size", basic("Int64"), true, &[])]),
            true,
            &["x"],
        ),
        field("void", nested(vec![]), false, &[]),
    ]
}

fn flow_over(fields: Vec<FieldSchema>) -> Flow {
    Flow {
        flow_instance: FlowInstanceSpec {
            name: "f".to_string(),
            import_ops: vec![],
            reactive_ops: vec![],
            export_ops: vec![],
            declarations: vec![],
            document: serde_json::Value::Null,
        },
        data_schema: FlowSchema {
            schema: StructSchema { fields },
        },
    }
}

fn row(name: &str, typ: &str, attrs: &str) -> (String, String, String) {
    (name.to_string(), typ.to_string(), attrs.to_string())
}

#[test]
fn lists_every_field_with_its_path() {
    assert_eq!(
        flow_over(sample()).get_schema(),
        vec![
            row("documents", "KTable", ""),
            row("documents[].filename", "Str", ""),
            row("documents[].chunks", "UTable?", "only"),
            row("documents[].chunks[].vec", "Vector[Float32]?", "a, b, c"),
            row("meta", "Struct?", "x"),
            row("meta.size", "Int64?", ""),
            row("void", "Struct", ""),
        ]
    );
}

#[test]
fn an_empty_schema_has_no_rows() {
    assert!(flow_over(vec![]).get_schema().is_empty());
}

#[test]
fn a_prefix_stands_before_each_name() {
    let plain = flow_over(sample()).get_schema();
    let mut rows = vec![row("kept", "Str", "")];
    process_fields(&sample(), "p.", &mut rows);
    assert_eq!(rows.len(), plain.len() + 1);
    assert_eq!(rows[0], row("kept", "Str", ""));
    for (with, without) in rows[1..].iter().zip(plain.iter()) {
        assert_eq!(with.0, format!("p.{}", without.0));
        assert_eq!(with.1, without.1);
        assert_eq!(with.2, without.2);
    }
}

#[test]
fn groups_of_fields_are_listed_one_after_the_other() {
    let mut first = sample();
    let second = first.split_off(1);
    let mut rows = Vec::new();
    process_fields(&first, "", &mut rows);
    process_fields(&second, "", &mut rows);
    assert_eq!(rows, flow_over(sample()).get_schema());
}

#[test]
fn plain_names_are_never_listed_twice() {
    let rows = flow_over(sample()).get_schema();
    for (i, one) in rows.iter().enumerate() {
        for other in &rows[i + 1..] {
            assert_ne!(one.0, other.0);
        }
    }
}

#[test]
fn a_name_with_a_dot_can_be_listed_twice() {
    let fields = vec![
        field("a", nested(vec![field("b", basic("Str"), false, &[])]), false, &[]),
        field("a.b", basic("Int64"), false, &[]),
    ];
    let rows = flow_over(fields).get_schema();
    assert_eq!(rows[1].0, rows[2].0);
}

#[test]
fn letting_a_value_be_missing_marks_one_row() {
    let before = flow_over(sample()).get_schema();
    let mut fields = sample();
    match &mut fields[0].value_type.typ {
        ValueType::Table(table) => table.row.fields[0].value_type.nullable = true,
        _ => panic!("a table was expected"),
    }
    let after = flow_over(fields).get_schema();
    assert_eq!(after.len(), before.len());
    for (i, (old, new)) in before.iter().zip(after.iter()).enumerate() {
        if i == 1 {
            assert_eq!(*new, row("documents[].filename", "Str?", ""));
        } else {
            assert_eq!(old, new);
        }
    }

    let mut fields = sample();
    fields[0].value_type.nullable = true;
    let after = flow_over(fields).get_schema();
    assert_eq!(after[0], row("documents", "KTable?", ""));
    assert_eq!(after[1..], before[1..]);
}

#[test]
fn attributes_show_in_their_row_alone() {
    let before = flow_over(sample()).get_schema();
    let mut fields = sample();
    fields[1].value_type.attrs = vec!["y".to_string(), "z".to_string()];
    let after = flow_over(fields).get_schema();
    assert_eq!(after[4], row("meta", "Struct?", "y, z"));
    assert_eq!(after[..4], before[..4]);
    assert_eq!(after[5..], before[5..]);
}
