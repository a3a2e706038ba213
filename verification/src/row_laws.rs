//! What each row of a schema listing says.

use vstd::prelude::*;

#[allow(unused_imports)]
use crate::flow::Flow;
#[allow(unused_imports)]
use crate::schema::{attrs_text, fields_rows, own_row, FieldSchema, ValueType};
#[allow(unused_imports)]
use crate::schema_laws::{
    field_at, inner_fields, inner_mark, is_path, lemma_each_field_has_its_place,
    lemma_own_row_comes_first, prefix_at, row_index,
};
#[allow(unused_imports)]
use crate::text::texts;
#[allow(unused_imports)]
use crate::text_laws::{extends_by, lemma_joined_by_text, lemma_joined_grows};

verus! {

/// No fields, no rows.
pub proof fn lemma_no_fields_no_rows(prefix: Seq<char>)
    ensures
        fields_rows(Seq::<FieldSchema>::empty(), prefix).len() == 0,
{
}

/// The listing of one field starts with the field's own row.
proof fn lemma_own_row_starts_listing(field: FieldSchema, prefix: Seq<char>)
    ensures
        fields_rows(seq![field], prefix) == seq![own_row(field, prefix)] + fields_rows(
            inner_fields(field),
            prefix + field.name@ + inner_mark(field),
        ),
{
    assert(seq![field].drop_last() =~= Seq::empty());
    assert(fields_rows(seq![field].drop_last(), prefix) =~= Seq::empty());
    lemma_own_row_comes_first(field, prefix);
    assert(fields_rows(seq![field], prefix) =~= seq![own_row(field, prefix)] + fields_rows(
        inner_fields(field),
        prefix + field.name@ + inner_mark(field),
    ));
}

/// A field is listed by its name behind the prefix, by its type, which a question mark ends where
/// the value may be missing, and by its attributes: none are shown as nothing, and one as itself. A
/// field of a basic type has this row alone; below it come, for a struct, the fields of the struct,
/// whose names go on after a dot, and for a table those of its rows, whose names go on after
/// brackets and a dot.
pub proof fn lemma_listing_of_one_field(field: FieldSchema, prefix: Seq<char>)
    ensures
        ({
            let rows = fields_rows(seq![field], prefix);
            &&& rows.len() > 0
            &&& rows[0].name == prefix + field.name@
            &&& match field.value_type.typ {
                ValueType::Basic(basic) => {
                    &&& rows.len() == 1
                    &&& !field.value_type.nullable ==> rows[0].typ == basic.text@
                    &&& field.value_type.nullable ==> rows[0].typ == basic.text@.push('?')
                },
                ValueType::Struct(inner) => {
                    &&& rows.skip(1) == fields_rows(
                        inner.fields@,
                        (prefix + field.name@).push('.'),
                    )
                    &&& !field.value_type.nullable ==> rows[0].typ == "Struct"@
                    &&& field.value_type.nullable ==> rows[0].typ == "Struct"@.push('?')
                },
                ValueType::Table(table) => {
                    &&& rows.skip(1) == fields_rows(
                        table.row.fields@,
                        prefix + field.name@ + seq!['[', ']', '.'],
                    )
                    &&& !field.value_type.nullable ==> rows[0].typ == table.kind.text@
                    &&& field.value_type.nullable ==> rows[0].typ == table.kind.text@.push('?')
                },
            }
            &&& field.value_type.attrs@.len() == 0 ==> rows[0].attrs.len() == 0
            &&& field.value_type.attrs@.len() == 1 ==> rows[0].attrs
                == field.value_type.attrs@[0]@
        }),
{
    let rows = fields_rows(seq![field], prefix);
    let inner = fields_rows(inner_fields(field), prefix + field.name@ + inner_mark(field));
    lemma_own_row_starts_listing(field, prefix);
    assert(rows.skip(1) =~= inner);
    reveal_strlit(".");
    reveal_strlit("[].");
    assert("[]."@ =~= seq!['[', ']', '.']);
    assert((prefix + field.name@).push('.') =~= prefix + field.name@ + "."@);
    lemma_attrs_of_at_most_one(field);
}

proof fn lemma_attrs_of_at_most_one(field: FieldSchema)
    ensures
        field.value_type.attrs@.len() == 0 ==> attrs_text(field.value_type).len()
            == 0,
        field.value_type.attrs@.len() == 1 ==> attrs_text(field.value_type)
            == field.value_type.attrs@[0]@,
{
    let attrs = field.value_type.attrs@;
    assert(texts(attrs).len() == attrs.len());
    if attrs.len() == 1 {
        assert(texts(attrs)[0] == attrs[0]@);
    }
}

/// One attribute more stands behind the others after a comma and a space, whatever the fields are
/// and wherever they stand.
pub proof fn lemma_one_attribute_more(
    field: FieldSchema,
    richer: FieldSchema,
    last: Seq<char>,
    prefix: Seq<char>,
    richer_prefix: Seq<char>,
)
    requires
        field.value_type.attrs@.len() > 0,
        extends_by(field.value_type.attrs@, richer.value_type.attrs@, last),
    ensures
        fields_rows(seq![richer], richer_prefix)[0].attrs == fields_rows(
            seq![field],
            prefix,
        )[0].attrs + seq![',', ' '] + last,
{
    lemma_own_row_starts_listing(field, prefix);
    lemma_own_row_starts_listing(richer, richer_prefix);
    reveal_strlit(", ");
    assert(", "@ =~= seq![',', ' ']);
    lemma_joined_grows(field.value_type.attrs@, richer.value_type.attrs@, last, ", "@);
}

/// The rows that Python gets are those of the listing of the flow's fields, each of them in its
/// place.
pub proof fn lemma_python_gets_the_listing(flow: Flow, rows: Vec<(String, String, String)>)
    requires
        call_ensures(Flow::get_schema, (&flow,), rows),
    ensures
        rows@.len() == fields_rows(flow.data_schema.schema.fields@, Seq::empty()).len(),
        forall|i: int|
            0 <= i < rows@.len() ==> {
                let row = fields_rows(flow.data_schema.schema.fields@, Seq::empty())[i];
                &&& (#[trigger] rows@[i]).0@ == row.name
                &&& rows@[i].1@ == row.typ
                &&& rows@[i].2@ == row.attrs
            },
{
}

/// In what Python gets, the attribute column of a field at any depth and of any type is empty where
/// the field has no attributes, and is the attribute's name where it has one.
pub proof fn lemma_attribute_column(
    flow: Flow,
    rows: Vec<(String, String, String)>,
    path: Seq<int>,
)
    requires
        call_ensures(Flow::get_schema, (&flow,), rows),
        is_path(flow.data_schema.schema.fields@, path),
    ensures
        ({
            let fields = flow.data_schema.schema.fields@;
            let attrs = field_at(fields, path).value_type.attrs@;
            let at = row_index(fields, path);
            &&& 0 <= at < rows@.len()
            &&& attrs.len() == 0 ==> rows@[at].2@.len() == 0
            &&& attrs.len() == 1 ==> rows@[at].2@ == attrs[0]@
        }),
{
    let fields = flow.data_schema.schema.fields@;
    lemma_each_field_has_its_place(fields, Seq::empty(), path);
    lemma_attrs_of_at_most_one(field_at(fields, path));
}

/// In what Python gets, of one flow or of two, a field with one attribute more than another has
/// that attribute's name behind the other's column, after a comma and a space, at whatever depths
/// the two stand and of whatever types they are.
pub proof fn lemma_attribute_column_grows(
    flow: Flow,
    rows: Vec<(String, String, String)>,
    path: Seq<int>,
    richer_flow: Flow,
    richer_rows: Vec<(String, String, String)>,
    richer_path: Seq<int>,
    last: Seq<char>,
)
    requires
        call_ensures(Flow::get_schema, (&flow,), rows),
        call_ensures(Flow::get_schema, (&richer_flow,), richer_rows),
        is_path(flow.data_schema.schema.fields@, path),
        is_path(richer_flow.data_schema.schema.fields@, richer_path),
        field_at(flow.data_schema.schema.fields@, path).value_type.attrs@.len() > 0,
        extends_by(
            field_at(flow.data_schema.schema.fields@, path).value_type.attrs@,
            field_at(richer_flow.data_schema.schema.fields@, richer_path).value_type.attrs@,
            last,
        ),
    ensures
        richer_rows@[row_index(richer_flow.data_schema.schema.fields@, richer_path)].2@
            == rows@[row_index(flow.data_schema.schema.fields@, path)].2@ + seq![',', ' '] + last,
{
    let fields = flow.data_schema.schema.fields@;
    let richer_fields = richer_flow.data_schema.schema.fields@;
    lemma_each_field_has_its_place(fields, Seq::empty(), path);
    lemma_each_field_has_its_place(richer_fields, Seq::empty(), richer_path);
    reveal_strlit(", ");
    assert(", "@ =~= seq![',', ' ']);
    lemma_joined_grows(
        field_at(fields, path).value_type.attrs@,
        field_at(richer_fields, richer_path).value_type.attrs@,
        last,
        ", "@,
    );
}

/// In what Python gets, fields whose attributes read the same have the same attribute column,
/// whatever else they are.
pub proof fn lemma_attribute_column_rests_on_attributes_alone(
    flow: Flow,
    rows: Vec<(String, String, String)>,
    path: Seq<int>,
    other_flow: Flow,
    other_rows: Vec<(String, String, String)>,
    other_path: Seq<int>,
)
    requires
        call_ensures(Flow::get_schema, (&flow,), rows),
        call_ensures(Flow::get_schema, (&other_flow,), other_rows),
        is_path(flow.data_schema.schema.fields@, path),
        is_path(other_flow.data_schema.schema.fields@, other_path),
        ({
            let attrs = field_at(flow.data_schema.schema.fields@, path).value_type.attrs@;
            let others = field_at(
                other_flow.data_schema.schema.fields@,
                other_path,
            ).value_type.attrs@;
            &&& attrs.len() == others.len()
            &&& forall|i: int| 0 <= i < attrs.len() ==> (#[trigger] attrs[i])@ == others[i]@
        }),
    ensures
        rows@[row_index(flow.data_schema.schema.fields@, path)].2@ == other_rows@[row_index(
            other_flow.data_schema.schema.fields@,
            other_path,
        )].2@,
{
    let fields = flow.data_schema.schema.fields@;
    let other_fields = other_flow.data_schema.schema.fields@;
    lemma_each_field_has_its_place(fields, Seq::empty(), path);
    lemma_each_field_has_its_place(other_fields, Seq::empty(), other_path);
    lemma_joined_by_text(
        field_at(fields, path).value_type.attrs@,
        field_at(other_fields, other_path).value_type.attrs@,
        ", "@,
    );
}

/// In what Python gets, the type column of a field at any depth is the text of its basic type, the
/// kind of its table or the word for a struct, and ends with a question mark exactly where the
/// value may be missing.
pub proof fn lemma_type_column(flow: Flow, rows: Vec<(String, String, String)>, path: Seq<int>)
    requires
        call_ensures(Flow::get_schema, (&flow,), rows),
        is_path(flow.data_schema.schema.fields@, path),
    ensures
        ({
            let fields = flow.data_schema.schema.fields@;
            let typed = field_at(fields, path).value_type;
            let at = row_index(fields, path);
            let plain = match typed.typ {
                ValueType::Basic(basic) => basic.text@,
                ValueType::Struct(_) => seq!['S', 't', 'r', 'u', 'c', 't'],
                ValueType::Table(table) => table.kind.text@,
            };
            &&& 0 <= at < rows@.len()
            &&& !typed.nullable ==> rows@[at].1@ == plain
            &&& typed.nullable ==> rows@[at].1@ == plain.push('?')
        }),
{
    lemma_each_field_has_its_place(flow.data_schema.schema.fields@, Seq::empty(), path);
    reveal_strlit("Struct");
    assert("Struct"@ =~= seq!['S', 't', 'r', 'u', 'c', 't']);
}

/// In what Python gets, a field at the top goes by its own name.
pub proof fn lemma_top_names(flow: Flow, rows: Vec<(String, String, String)>, i: int)
    requires
        call_ensures(Flow::get_schema, (&flow,), rows),
        0 <= i < flow.data_schema.schema.fields@.len(),
    ensures
        0 <= row_index(flow.data_schema.schema.fields@, seq![i]) < rows@.len(),
        rows@[row_index(flow.data_schema.schema.fields@, seq![i])].0@
            == flow.data_schema.schema.fields@[i].name@,
{
    let fields = flow.data_schema.schema.fields@;
    assert(is_path(fields, seq![i]));
    lemma_each_field_has_its_place(fields, Seq::empty(), seq![i]);
    assert(Seq::<char>::empty() + fields[i].name@ =~= fields[i].name@);
}

/// In what Python gets, the name of a field inside another goes on from the other's: after a dot
/// where the other is a struct, and after brackets and a dot where it is a table.
pub proof fn lemma_inner_names(
    flow: Flow,
    rows: Vec<(String, String, String)>,
    path: Seq<int>,
    k: int,
)
    requires
        call_ensures(Flow::get_schema, (&flow,), rows),
        is_path(flow.data_schema.schema.fields@, path),
        is_path(flow.data_schema.schema.fields@, path.push(k)),
    ensures
        ({
            let fields = flow.data_schema.schema.fields@;
            let outer = rows@[row_index(fields, path)].0@;
            let inner = rows@[row_index(fields, path.push(k))].0@;
            let own = field_at(fields, path.push(k)).name@;
            match field_at(fields, path).value_type.typ {
                ValueType::Struct(_) => inner == outer + seq!['.'] + own,
                ValueType::Table(_) => inner == outer + seq!['[', ']', '.'] + own,
                ValueType::Basic(_) => false,
            }
        }),
{
    let fields = flow.data_schema.schema.fields@;
    lemma_each_field_has_its_place(fields, Seq::empty(), path);
    lemma_each_field_has_its_place(fields, Seq::empty(), path.push(k));
    lemma_step_inside(fields, path, k, Seq::empty());
    reveal_strlit(".");
    reveal_strlit("[].");
    assert("."@ =~= seq!['.']);
    assert("[]."@ =~= seq!['[', ']', '.']);
}

/// One step further leads to a field inside, whose prefix goes on from the name of the field
/// before.
proof fn lemma_step_inside(
    fields: Seq<FieldSchema>,
    path: Seq<int>,
    k: int,
    prefix: Seq<char>,
)
    requires
        is_path(fields, path),
        is_path(fields, path.push(k)),
    ensures
        0 <= k < inner_fields(field_at(fields, path)).len(),
        field_at(fields, path.push(k)) == inner_fields(field_at(fields, path))[k],
        prefix_at(fields, path.push(k), prefix) == prefix_at(fields, path, prefix) + field_at(
            fields,
            path,
        ).name@ + inner_mark(field_at(fields, path)),
    decreases path.len(),
{
    let field = fields[path[0]];
    assert(path.push(k)[0] == path[0]);
    if path.len() == 1 {
        assert(path.push(k).drop_first() =~= seq![k]);
        reveal_with_fuel(field_at, 2);
        reveal_with_fuel(prefix_at, 2);
        reveal_with_fuel(is_path, 2);
    } else {
        assert(path.push(k).drop_first() =~= path.drop_first().push(k));
        lemma_step_inside(
            inner_fields(field),
            path.drop_first(),
            k,
            prefix + field.name@ + inner_mark(field),
        );
    }
}

} // verus!
