use cocoindex_engine::schema::{BasicValueType, EnrichedValueType, FieldSchema, ValueType};
use cocoindex_engine::transient::{TransientFlow, TransientFlowInstance};

fn flow(types: &[&str]) -> TransientFlow {
    TransientFlow {
        transient_flow_instance: TransientFlowInstance {
            input_fields: types
                .iter()
                .map(|text| FieldSchema {
                    name: "input".to_string(),
                    value_type: EnrichedValueType {
                        typ: ValueType::Basic(BasicValueType {
                            text: text.to_string(),
                        }),
                        nullable: false,
                        attrs: vec![],
                    },
                })
                .collect(),
            document: serde_json::from_str(r#"{"k":"v"}"#).unwrap(),
        },
    }
}

fn convert(typ: &ValueType, arg: &i32) -> Result<String, String> {
    let name = match typ {
        ValueType::Basic(basic) => basic.text.clone(),
        _ => return Err("not basic".to_string()),
    };
    if *arg < 0 {
        Err(format!("{arg} is no {name}"))
    } else {
        Ok(format!("{name}={arg}"))
    }
}

#[test]
fn converts_each_argument_by_its_field() {
    let values = flow(&["A", "B"]).input_values(&vec![1, 2], convert);
    assert_eq!(values.unwrap(), vec!["A=1", "B=2"]);
}

#[test]
fn ignores_surplus_arguments() {
    let values = flow(&["A"]).input_values(&vec![1, -2, 3], convert);
    assert_eq!(values.unwrap(), vec!["A=1"]);
}

#[test]
fn leaves_out_fields_without_arguments() {
    let values = flow(&["A", "B", "C"]).input_values(&vec![1], convert);
    assert_eq!(values.unwrap(), vec!["A=1"]);
    let none: Vec<i32> = vec![];
    assert!(flow(&["A"]).input_values(&none, convert).unwrap().is_empty());
}

#[test]
fn the_first_failing_conversion_is_the_error() {
    let values = flow(&["A", "B", "C"]).input_values(&vec![1, -2, -3], convert);
    assert_eq!(values.unwrap_err(), "-2 is no B");
}

#[test]
fn a_transient_flow_prints_its_document() {
    let flow = flow(&[]);
    assert_eq!(flow.__str__(), "{\n  \"k\": \"v\"\n}");
    assert_eq!(flow.__repr__(), flow.__str__());
}
