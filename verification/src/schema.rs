//! The schema of a flow's data, and its listing as rows.

use vstd::prelude::*;

#[allow(unused_imports)]
use crate::text::{joined, texts};
use crate::text::{concat2, join};

verus! {

/// A basic type, by the text that it displays as.
#[derive(Debug)]
pub struct BasicValueType {
    pub text: String,
}

/// The kind of a table, by the text that it displays as.
#[derive(Debug)]
pub struct TableKind {
    pub text: String,
}

/// The fields of a struct or of a table's rows.
#[derive(Debug)]
pub struct StructSchema {
    pub fields: Vec<FieldSchema>,
}

/// A table: its kind and the fields of its rows.
#[derive(Debug)]
pub struct TableSchema {
    pub kind: TableKind,
    pub row: StructSchema,
}

/// What a value can be.
#[derive(Debug)]
pub enum ValueType {
    Struct(StructSchema),
    Basic(BasicValueType),
    Table(TableSchema),
}

/// A type, whether its value may be missing, and the names of its attributes in their order.
#[derive(Debug)]
pub struct EnrichedValueType {
    pub typ: ValueType,
    pub nullable: bool,
    pub attrs: Vec<String>,
}

/// A field's name and type.
#[derive(Debug)]
pub struct FieldSchema {
    pub name: String,
    pub value_type: EnrichedValueType,
}

/// The schema of all the data of a flow.
#[derive(Debug)]
pub struct FlowSchema {
    pub schema: StructSchema,
}

/// One row of a schema's listing: where the field is, what it is, and its attributes.
pub ghost struct Row {
    pub name: Seq<char>,
    pub typ: Seq<char>,
    pub attrs: Seq<char>,
}

/// The rows of `list`, in their order.
pub open spec fn row_views(list: Seq<(String, String, String)>) -> Seq<Row> {
    Seq::new(list.len(), |i: int| Row { name: list[i].0@, typ: list[i].1@, attrs: list[i].2@ })
}

/// A type as a row shows it: a question mark at the end says that the value may be missing.
pub open spec fn type_text(value_type: EnrichedValueType) -> Seq<char> {
    let plain = match value_type.typ {
        ValueType::Basic(basic) => basic.text@,
        ValueType::Table(table) => table.kind.text@,
        ValueType::Struct(_) => "Struct"@,
    };
    if value_type.nullable {
        plain.push('?')
    } else {
        plain
    }
}

/// The attributes' names as a row shows them.
pub open spec fn attrs_text(value_type: EnrichedValueType) -> Seq<char> {
    joined(texts(value_type.attrs@), ", "@)
}

/// The row of a field itself.
pub open spec fn own_row(field: FieldSchema, prefix: Seq<char>) -> Row {
    Row {
        name: prefix + field.name@,
        typ: type_text(field.value_type),
        attrs: attrs_text(field.value_type),
    }
}

/// The rows of a field: its own, then those of the fields inside it, whose names go on from the
/// field's name after `.` in a struct and after `[].` in a table.
pub open spec fn field_rows(field: FieldSchema, prefix: Seq<char>) -> Seq<Row>
    decreases field,
{
    seq![own_row(field, prefix)] + match field.value_type.typ {
        ValueType::Struct(inner) => fields_rows(inner.fields@, prefix + field.name@ + "."@),
        ValueType::Table(table) => fields_rows(table.row.fields@, prefix + field.name@ + "[]."@),
        ValueType::Basic(_) => Seq::empty(),
    }
}

/// The rows of `fields`, field after field.
pub open spec fn fields_rows(fields: Seq<FieldSchema>, prefix: Seq<char>) -> Seq<Row>
    decreases fields,
{
    if fields.len() == 0 {
        Seq::empty()
    } else {
        fields_rows(fields.drop_last(), prefix) + field_rows(fields.last(), prefix)
    }
}

/// The type of a field as its row shows it.
fn field_type(value_type: &EnrichedValueType) -> (text: String)
    ensures
        text@ == type_text(*value_type),
{
    let mut text = match &value_type.typ {
        ValueType::Basic(basic) => basic.text.clone(),
        ValueType::Table(table) => table.kind.text.clone(),
        ValueType::Struct(_) => "Struct".to_string(),
    };
    if value_type.nullable {
        proof {
            reveal_strlit("?");
        }
        let ghost plain = text@;
        text.append("?");
        assert(text@ =~= plain.push('?'));
    }
    text
}

/// Appends the rows of `fields`, whose names start with `prefix`, to `result`.
pub fn process_fields(
    fields: &Vec<FieldSchema>,
    prefix: &str,
    result: &mut Vec<(String, String, String)>,
)
    ensures
        row_views(final(result)@) == row_views(old(result)@) + fields_rows(fields@, prefix@),
        final(result)@.len() == old(result)@.len() + fields_rows(fields@, prefix@).len(),
        forall|i: int|
            0 <= i < old(result)@.len() ==> #[trigger] final(result)@[i] == old(result)@[i],
        forall|i: int|
            #![trigger fields_rows(fields@, prefix@)[i]]
            0 <= i < fields_rows(fields@, prefix@).len() ==> {
                let row = final(result)@[old(result)@.len() + i];
                &&& row.0@ == fields_rows(fields@, prefix@)[i].name
                &&& row.1@ == fields_rows(fields@, prefix@)[i].typ
                &&& row.2@ == fields_rows(fields@, prefix@)[i].attrs
            },
    decreases fields@,
{
    let ghost before = row_views(result@);
    for i in 0..fields.len()
        invariant
            before == row_views(old(result)@),
            old(result)@.len() <= result@.len(),
            forall|j: int|
                0 <= j < old(result)@.len() ==> #[trigger] result@[j] == old(result)@[j],
            row_views(result@) == before + fields_rows(fields@.take(i as int), prefix@),
    {
        let field = &fields[i];
        let field_name = concat2(prefix, field.name.as_str());
        let typ = field_type(&field.value_type);
        let attrs = join(&field.value_type.attrs, ", ");
        let ghost so_far = row_views(result@);
        result.push((field_name.clone(), typ, attrs));
        assert(row_views(result@) =~= so_far.push(own_row(*field, prefix@)));
        assert(decreases_to!(fields@ => fields@[i as int]));
        match &field.value_type.typ {
            ValueType::Struct(inner) => {
                let inner_prefix = concat2(field_name.as_str(), ".");
                process_fields(&inner.fields, inner_prefix.as_str(), result);
            },
            ValueType::Table(table) => {
                let inner_prefix = concat2(field_name.as_str(), "[].");
                process_fields(&table.row.fields, inner_prefix.as_str(), result);
            },
            ValueType::Basic(_) => {},
        }
        assert(row_views(result@) =~= so_far + field_rows(*field, prefix@));
        assert(fields@.take(i + 1).drop_last() =~= fields@.take(i as int));
        assert(row_views(result@) =~= before + fields_rows(fields@.take(i + 1), prefix@));
    }
    assert(fields@.take(fields@.len() as int) =~= fields@);
    assert forall|i: int|
        #![trigger fields_rows(fields@, prefix@)[i]]
        0 <= i < fields_rows(fields@, prefix@).len() implies {
        let row = result@[old(result)@.len() + i];
        &&& row.0@ == fields_rows(fields@, prefix@)[i].name
        &&& row.1@ == fields_rows(fields@, prefix@)[i].typ
        &&& row.2@ == fields_rows(fields@, prefix@)[i].attrs
    } by {
        assert(row_views(result@)[old(result)@.len() + i] == fields_rows(fields@, prefix@)[i]);
    }
}

} // verus!
