//! What holds of every schema listing.

use vstd::prelude::*;

#[allow(unused_imports)]
use crate::schema::{
    attrs_text, field_rows, fields_rows, own_row, type_text, FieldSchema, Row, ValueType,
};
#[allow(unused_imports)]
use crate::text::texts;

verus! {

/// The fields directly inside a field.
pub open spec fn inner_fields(field: FieldSchema) -> Seq<FieldSchema> {
    match field.value_type.typ {
        ValueType::Struct(inner) => inner.fields@,
        ValueType::Table(table) => table.row.fields@,
        ValueType::Basic(_) => Seq::empty(),
    }
}

/// What stands between a field's name and the names of the fields inside it.
pub open spec fn inner_mark(field: FieldSchema) -> Seq<char> {
    match field.value_type.typ {
        ValueType::Table(_) => "[]."@,
        _ => "."@,
    }
}

/// How many fields there are in and under `fields`.
pub open spec fn field_count(fields: Seq<FieldSchema>) -> nat
    decreases fields,
{
    if fields.len() == 0 {
        0
    } else {
        field_count(fields.drop_last()) + 1 + match fields.last().value_type.typ {
            ValueType::Struct(inner) => field_count(inner.fields@),
            ValueType::Table(table) => field_count(table.row.fields@),
            ValueType::Basic(_) => 0,
        }
    }
}

/// `rows` with `prefix` put before each name.
pub open spec fn prefixed(prefix: Seq<char>, rows: Seq<Row>) -> Seq<Row> {
    Seq::new(rows.len(), |i: int| Row { name: prefix + rows[i].name, ..rows[i] })
}

/// A field's rows are its own row and then the listing of what is inside it.
pub proof fn lemma_own_row_comes_first(field: FieldSchema, prefix: Seq<char>)
    ensures
        field_rows(field, prefix) == seq![own_row(field, prefix)] + fields_rows(
            inner_fields(field),
            prefix + field.name@ + inner_mark(field),
        ),
{
    match field.value_type.typ {
        ValueType::Struct(_) => {},
        ValueType::Table(_) => {},
        ValueType::Basic(_) => {
            assert(inner_fields(field) == Seq::<FieldSchema>::empty());
        },
    }
}

/// A schema's listing has one row for each field in it, nested fields included.
pub proof fn lemma_one_row_per_field(fields: Seq<FieldSchema>, prefix: Seq<char>)
    ensures
        fields_rows(fields, prefix).len() == field_count(fields),
    decreases fields,
{
    if fields.len() > 0 {
        let last = fields.last();
        lemma_one_row_per_field(fields.drop_last(), prefix);
        lemma_own_row_comes_first(last, prefix);
        match last.value_type.typ {
            ValueType::Struct(inner) => {
                lemma_one_row_per_field(inner.fields@, prefix + last.name@ + "."@);
            },
            ValueType::Table(table) => {
                lemma_one_row_per_field(table.row.fields@, prefix + last.name@ + "[]."@);
            },
            ValueType::Basic(_) => {},
        }
    }
}

/// The listing of two groups of fields is the listing of the first and then of the second.
pub proof fn lemma_listing_goes_field_by_field(
    first: Seq<FieldSchema>,
    second: Seq<FieldSchema>,
    prefix: Seq<char>,
)
    ensures
        fields_rows(first + second, prefix) == fields_rows(first, prefix) + fields_rows(
            second,
            prefix,
        ),
    decreases second.len(),
{
    let both = first + second;
    if second.len() == 0 {
        assert(both =~= first);
        assert(fields_rows(both, prefix) =~= fields_rows(first, prefix) + Seq::empty());
    } else {
        assert(both.drop_last() =~= first + second.drop_last());
        lemma_listing_goes_field_by_field(first, second.drop_last(), prefix);
        assert(fields_rows(both, prefix) =~= fields_rows(first, prefix) + fields_rows(
            second,
            prefix,
        ));
    }
}

/// A prefix changes nothing of a listing but that it stands before each name.
pub proof fn lemma_prefix_only_prepends(
    fields: Seq<FieldSchema>,
    outer: Seq<char>,
    prefix: Seq<char>,
)
    ensures
        fields_rows(fields, outer + prefix) == prefixed(outer, fields_rows(fields, prefix)),
    decreases fields,
{
    if fields.len() == 0 {
        assert(fields_rows(fields, outer + prefix) =~= prefixed(
            outer,
            fields_rows(fields, prefix),
        ));
    } else {
        let last = fields.last();
        let mark = inner_mark(last);
        lemma_prefix_only_prepends(fields.drop_last(), outer, prefix);
        match last.value_type.typ {
            ValueType::Struct(inner) => {
                lemma_prefix_only_prepends(inner.fields@, outer, prefix + last.name@ + mark);
            },
            ValueType::Table(table) => {
                lemma_prefix_only_prepends(table.row.fields@, outer, prefix + last.name@ + mark);
            },
            ValueType::Basic(_) => {},
        }
        assert(outer + (prefix + last.name@ + mark) =~= outer + prefix + last.name@ + mark);
        assert(outer + (prefix + last.name@) =~= outer + prefix + last.name@);
        assert(field_rows(last, outer + prefix) =~= prefixed(outer, field_rows(last, prefix)));
        assert(fields_rows(fields, outer + prefix) =~= prefixed(
            outer,
            fields_rows(fields, prefix),
        ));
    }
}

/// A name that holds neither of the characters that listings put between names.
pub open spec fn plain_name(name: Seq<char>) -> bool {
    forall|i: int| 0 <= i < name.len() ==> name[i] != '.' && name[i] != '['
}

/// On every level the fields have plain names, each of them its own.
pub open spec fn plainly_named(fields: Seq<FieldSchema>) -> bool
    decreases fields,
{
    &&& forall|i: int, j: int|
        0 <= i < j < fields.len() ==> (#[trigger] fields[i]).name@ != (#[trigger] fields[j]).name@
    &&& forall|i: int| 0 <= i < fields.len() ==> plain_name((#[trigger] fields[i]).name@)
    &&& forall|i: int|
        0 <= i < fields.len() ==> match (#[trigger] fields[i]).value_type.typ {
            ValueType::Struct(inner) => plainly_named(inner.fields@),
            ValueType::Table(table) => plainly_named(table.row.fields@),
            ValueType::Basic(_) => true,
        }
}

/// `name` is that of `field` after `prefix`, or goes on from it after one of the marks.
spec fn leads_to(prefix: Seq<char>, field: FieldSchema, name: Seq<char>) -> bool {
    let own = prefix + field.name@;
    &&& own.len() <= name.len()
    &&& name.take(own.len() as int) == own
    &&& name.len() == own.len() || name[own.len() as int] == '.' || name[own.len() as int] == '['
}

/// Each name in a listing starts with the listing's prefix.
proof fn lemma_names_start_with_prefix(fields: Seq<FieldSchema>, prefix: Seq<char>, k: int)
    requires
        0 <= k < fields_rows(fields, prefix).len(),
    ensures
        prefix.len() <= fields_rows(fields, prefix)[k].name.len(),
        fields_rows(fields, prefix)[k].name.take(prefix.len() as int) == prefix,
{
    lemma_prefix_only_prepends(fields, prefix, Seq::empty());
    assert(prefix + Seq::<char>::empty() =~= prefix);
    let bare = fields_rows(fields, Seq::empty());
    assert(fields_rows(fields, prefix)[k].name == prefix + bare[k].name);
    assert((prefix + bare[k].name).take(prefix.len() as int) =~= prefix);
}

/// Each row of a field is named by the field or goes on from its name.
proof fn lemma_field_leads_to_its_rows(field: FieldSchema, prefix: Seq<char>, k: int)
    requires
        0 <= k < field_rows(field, prefix).len(),
    ensures
        leads_to(prefix, field, field_rows(field, prefix)[k].name),
        k > 0 ==> field_rows(field, prefix)[k].name.len() > (prefix + field.name@).len(),
{
    let own = prefix + field.name@;
    let mark = inner_mark(field);
    lemma_own_row_comes_first(field, prefix);
    if k == 0 {
        assert(own.take(own.len() as int) =~= own);
    } else {
        reveal_strlit(".");
        reveal_strlit("[].");
        let name = field_rows(field, prefix)[k].name;
        lemma_names_start_with_prefix(inner_fields(field), own + mark, k - 1);
        assert(name.take((own + mark).len() as int) == own + mark);
        assert(name.take(own.len() as int) =~= own) by {
            assert forall|i: int| 0 <= i < own.len() implies name[i] == own[i] by {
                assert(name[i] == name.take((own + mark).len() as int)[i]);
            }
        }
        assert(name[own.len() as int] == name.take((own + mark).len() as int)[own.len() as int]);
        assert((own + mark)[own.len() as int] == mark[0]);
    }
}

/// Each row of a listing belongs to one of its fields.
proof fn lemma_some_field_leads_to_row(
    fields: Seq<FieldSchema>,
    prefix: Seq<char>,
    k: int,
) -> (owner: int)
    requires
        0 <= k < fields_rows(fields, prefix).len(),
    ensures
        0 <= owner < fields.len(),
        leads_to(prefix, fields[owner], fields_rows(fields, prefix)[k].name),
    decreases fields.len(),
{
    let earlier = fields_rows(fields.drop_last(), prefix);
    if k < earlier.len() {
        lemma_some_field_leads_to_row(fields.drop_last(), prefix, k)
    } else {
        lemma_field_leads_to_its_rows(fields.last(), prefix, k - earlier.len());
        fields.len() - 1
    }
}

/// Two plainly named fields that lead to one name have the same name.
proof fn lemma_plain_names_part(
    prefix: Seq<char>,
    one: FieldSchema,
    other: FieldSchema,
    name: Seq<char>,
)
    requires
        plain_name(one.name@),
        plain_name(other.name@),
        leads_to(prefix, one, name),
        leads_to(prefix, other, name),
    ensures
        one.name@ == other.name@,
{
    let left = prefix + one.name@;
    let right = prefix + other.name@;
    if left.len() < right.len() {
        assert(name[left.len() as int] == name.take(right.len() as int)[left.len() as int]);
        assert(right[left.len() as int] == other.name@[left.len() - prefix.len()]);
    } else if right.len() < left.len() {
        assert(name[right.len() as int] == name.take(left.len() as int)[right.len() as int]);
        assert(left[right.len() as int] == one.name@[right.len() - prefix.len()]);
    } else {
        assert(left == right);
        assert(one.name@ =~= left.skip(prefix.len() as int));
        assert(other.name@ =~= right.skip(prefix.len() as int));
    }
}

/// Where the fields of a schema are plainly named, no two rows of its listing have the same name:
/// the name tells which field the row is about.
pub proof fn lemma_names_tell_fields_apart(fields: Seq<FieldSchema>, prefix: Seq<char>)
    requires
        plainly_named(fields),
    ensures
        forall|i: int, j: int|
            0 <= i < j < fields_rows(fields, prefix).len() ==> (#[trigger] fields_rows(
                fields,
                prefix,
            )[i]).name != (#[trigger] fields_rows(fields, prefix)[j]).name,
    decreases fields,
{
    if fields.len() > 0 {
        let rows = fields_rows(fields, prefix);
        let init = fields.drop_last();
        let last = fields.last();
        let earlier = fields_rows(init, prefix);
        let later = field_rows(last, prefix);
        let inner = fields_rows(inner_fields(last), prefix + last.name@ + inner_mark(last));
        assert(fields[fields.len() - 1] == last);
        assert(plainly_named(init)) by {
            assert forall|i: int| 0 <= i < init.len() implies init[i] == fields[i] by {}
        }
        lemma_names_tell_fields_apart(init, prefix);
        lemma_own_row_comes_first(last, prefix);
        match last.value_type.typ {
            ValueType::Struct(schema) => {
                lemma_names_tell_fields_apart(
                    schema.fields@,
                    prefix + last.name@ + inner_mark(last),
                );
            },
            ValueType::Table(table) => {
                lemma_names_tell_fields_apart(
                    table.row.fields@,
                    prefix + last.name@ + inner_mark(last),
                );
            },
            ValueType::Basic(_) => {},
        }
        assert forall|i: int, j: int| 0 <= i < j < rows.len() implies (#[trigger] rows[i]).name != (
        #[trigger] rows[j]).name by {
            if j < earlier.len() {
                assert(rows[i] == earlier[i]);
                assert(rows[j] == earlier[j]);
            } else if i < earlier.len() {
                let owner = lemma_some_field_leads_to_row(init, prefix, i);
                lemma_field_leads_to_its_rows(last, prefix, j - earlier.len());
                assert(init[owner] == fields[owner]);
                if rows[i].name == rows[j].name {
                    lemma_plain_names_part(prefix, fields[owner], last, rows[i].name);
                }
            } else if i == earlier.len() {
                lemma_field_leads_to_its_rows(last, prefix, j - earlier.len());
            } else {
                assert(rows[i] == inner[i - earlier.len() - 1]);
                assert(rows[j] == inner[j - earlier.len() - 1]);
            }
        }
    }
}

/// `path` leads to a field: its first step picks one of `fields`, and each further step picks one
/// of the fields inside the field before.
pub open spec fn is_path(fields: Seq<FieldSchema>, path: Seq<int>) -> bool
    decreases path.len(),
{
    &&& path.len() > 0
    &&& 0 <= path[0] < fields.len()
    &&& path.len() > 1 ==> is_path(inner_fields(fields[path[0]]), path.drop_first())
}

/// The field that `path` leads to.
pub open spec fn field_at(fields: Seq<FieldSchema>, path: Seq<int>) -> FieldSchema
    decreases path.len(),
{
    if path.len() <= 1 {
        fields[path[0]]
    } else {
        field_at(inner_fields(fields[path[0]]), path.drop_first())
    }
}

/// What stands before the name of the field that `path` leads to.
pub open spec fn prefix_at(
    fields: Seq<FieldSchema>,
    path: Seq<int>,
    prefix: Seq<char>,
) -> Seq<char>
    decreases path.len(),
{
    if path.len() <= 1 {
        prefix
    } else {
        let field = fields[path[0]];
        prefix_at(inner_fields(field), path.drop_first(), prefix + field.name@ + inner_mark(field))
    }
}

/// The place in the listing of the field that `path` leads to.
pub open spec fn row_index(fields: Seq<FieldSchema>, path: Seq<int>) -> int
    decreases path.len(),
{
    let before = field_count(fields.take(path[0])) as int;
    if path.len() <= 1 {
        before
    } else {
        before + 1 + row_index(inner_fields(fields[path[0]]), path.drop_first())
    }
}

/// The listing of `fields`, taken apart at the field at `i`.
proof fn lemma_listing_splits_at(fields: Seq<FieldSchema>, prefix: Seq<char>, i: int)
    requires
        0 <= i < fields.len(),
    ensures
        fields_rows(fields, prefix) == fields_rows(fields.take(i), prefix) + field_rows(
            fields[i],
            prefix,
        ) + fields_rows(fields.skip(i + 1), prefix),
        fields_rows(fields.take(i), prefix).len() == field_count(fields.take(i)),
{
    assert(fields =~= fields.take(i + 1) + fields.skip(i + 1));
    lemma_listing_goes_field_by_field(fields.take(i + 1), fields.skip(i + 1), prefix);
    assert(fields.take(i + 1).drop_last() =~= fields.take(i));
    lemma_one_row_per_field(fields.take(i), prefix);
}

/// Each field, at any depth, has its own row at its place in the listing.
pub proof fn lemma_each_field_has_its_place(
    fields: Seq<FieldSchema>,
    prefix: Seq<char>,
    path: Seq<int>,
)
    requires
        is_path(fields, path),
    ensures
        0 <= row_index(fields, path) < fields_rows(fields, prefix).len(),
        fields_rows(fields, prefix)[row_index(fields, path)] == own_row(
            field_at(fields, path),
            prefix_at(fields, path, prefix),
        ),
    decreases path.len(),
{
    let field = fields[path[0]];
    lemma_listing_splits_at(fields, prefix, path[0]);
    lemma_own_row_comes_first(field, prefix);
    if path.len() > 1 {
        lemma_each_field_has_its_place(
            inner_fields(field),
            prefix + field.name@ + inner_mark(field),
            path.drop_first(),
        );
    }
}

/// Two types that list alike: of the same sort, with the same text and, inside, fields that do not
/// differ.
pub open spec fn same_type(one: ValueType, other: ValueType) -> bool
    decreases one,
{
    match (one, other) {
        (ValueType::Basic(left), ValueType::Basic(right)) => left.text@ == right.text@,
        (ValueType::Struct(left), ValueType::Struct(right)) => same_fields(
            left.fields@,
            right.fields@,
        ),
        (ValueType::Table(left), ValueType::Table(right)) => left.kind.text@ == right.kind.text@
            && same_fields(left.row.fields@, right.row.fields@),
        _ => false,
    }
}

/// Two fields that do not differ.
pub open spec fn same_field(one: FieldSchema, other: FieldSchema) -> bool
    decreases one,
{
    &&& one.name@ == other.name@
    &&& one.value_type.nullable == other.value_type.nullable
    &&& texts(one.value_type.attrs@) == texts(other.value_type.attrs@)
    &&& same_type(one.value_type.typ, other.value_type.typ)
}

/// Two groups of fields that do not differ.
pub open spec fn same_fields(one: Seq<FieldSchema>, other: Seq<FieldSchema>) -> bool
    decreases one,
{
    &&& one.len() == other.len()
    &&& forall|i: int| 0 <= i < one.len() ==> same_field(#[trigger] one[i], other[i])
}

/// Two schemas that do not differ have the same listing.
pub proof fn lemma_same_fields_list_alike(
    one: Seq<FieldSchema>,
    other: Seq<FieldSchema>,
    prefix: Seq<char>,
)
    requires
        same_fields(one, other),
    ensures
        fields_rows(one, prefix) == fields_rows(other, prefix),
    decreases one,
{
    if one.len() > 0 {
        let left = one.last();
        let right = other.last();
        assert(same_field(one[one.len() - 1], other[one.len() - 1]));
        lemma_same_fields_list_alike(one.drop_last(), other.drop_last(), prefix);
        match (left.value_type.typ, right.value_type.typ) {
            (ValueType::Struct(inner), ValueType::Struct(others)) => {
                lemma_same_fields_list_alike(
                    inner.fields@,
                    others.fields@,
                    prefix + left.name@ + "."@,
                );
            },
            (ValueType::Table(inner), ValueType::Table(others)) => {
                lemma_same_fields_list_alike(
                    inner.row.fields@,
                    others.row.fields@,
                    prefix + left.name@ + "[]."@,
                );
            },
            _ => {},
        }
        assert(field_rows(left, prefix) =~= field_rows(right, prefix));
    }
}

/// The two schemas do not differ but in the field that `path` leads to, and there only in whether
/// the value may be missing and in the attributes.
pub open spec fn annotated_otherwise_at(
    one: Seq<FieldSchema>,
    other: Seq<FieldSchema>,
    path: Seq<int>,
) -> bool
    decreases path.len(),
{
    &&& path.len() > 0
    &&& one.len() == other.len()
    &&& 0 <= path[0] < one.len()
    &&& forall|i: int|
        0 <= i < one.len() && i != path[0] ==> same_field(#[trigger] one[i], other[i])
    &&& one[path[0]].name@ == other[path[0]].name@
    &&& if path.len() == 1 {
        same_type(one[path[0]].value_type.typ, other[path[0]].value_type.typ)
    } else {
        let left = one[path[0]].value_type;
        let right = other[path[0]].value_type;
        &&& left.nullable == right.nullable
        &&& texts(left.attrs@) == texts(right.attrs@)
        &&& match (left.typ, right.typ) {
            (ValueType::Struct(inner), ValueType::Struct(others)) => annotated_otherwise_at(
                inner.fields@,
                others.fields@,
                path.drop_first(),
            ),
            (ValueType::Table(inner), ValueType::Table(others)) => inner.kind.text@
                == others.kind.text@ && annotated_otherwise_at(
                inner.row.fields@,
                others.row.fields@,
                path.drop_first(),
            ),
            _ => false,
        }
    }
}

/// Whether a field's value may be missing, and the field's attributes, show in the row of that field
/// and nowhere else: neither the rows of other fields nor those of the fields inside it change.
pub proof fn lemma_annotations_stay_in_their_row(
    one: Seq<FieldSchema>,
    other: Seq<FieldSchema>,
    path: Seq<int>,
    prefix: Seq<char>,
)
    requires
        annotated_otherwise_at(one, other, path),
    ensures
        is_path(one, path),
        is_path(other, path),
        0 <= row_index(one, path) < fields_rows(one, prefix).len(),
        fields_rows(other, prefix) == fields_rows(one, prefix).update(
            row_index(one, path),
            (Row {
                name: fields_rows(one, prefix)[row_index(one, path)].name,
                typ: type_text(field_at(other, path).value_type),
                attrs: attrs_text(field_at(other, path).value_type),
            }),
        ),
    decreases path.len(),
{
    let i = path[0];
    let left = one[i];
    let right = other[i];
    let mark = inner_mark(left);
    let inner_prefix = prefix + left.name@ + mark;
    assert(inner_mark(right) == mark);
    lemma_listing_splits_at(one, prefix, i);
    lemma_listing_splits_at(other, prefix, i);
    lemma_own_row_comes_first(left, prefix);
    lemma_own_row_comes_first(right, prefix);
    assert(same_fields(one.take(i), other.take(i)));
    lemma_same_fields_list_alike(one.take(i), other.take(i), prefix);
    assert(same_fields(one.skip(i + 1), other.skip(i + 1)));
    lemma_same_fields_list_alike(one.skip(i + 1), other.skip(i + 1), prefix);
    if path.len() == 1 {
        assert(same_fields(inner_fields(left), inner_fields(right)));
        lemma_same_fields_list_alike(inner_fields(left), inner_fields(right), inner_prefix);
    } else {
        lemma_annotations_stay_in_their_row(
            inner_fields(left),
            inner_fields(right),
            path.drop_first(),
            inner_prefix,
        );
    }
    lemma_each_field_has_its_place(one, prefix, path);
    assert(fields_rows(other, prefix) =~= fields_rows(one, prefix).update(
        row_index(one, path),
        Row {
            name: fields_rows(one, prefix)[row_index(one, path)].name,
            typ: type_text(field_at(other, path).value_type),
            attrs: attrs_text(field_at(other, path).value_type),
        },
    ));
}

/// The two schemas do not differ but in one thing: the value of the field that `path` leads to may
/// be missing in `other` and not in `one`.
pub open spec fn nullable_only_in_other_at(
    one: Seq<FieldSchema>,
    other: Seq<FieldSchema>,
    path: Seq<int>,
) -> bool {
    &&& annotated_otherwise_at(one, other, path)
    &&& !field_at(one, path).value_type.nullable
    &&& field_at(other, path).value_type.nullable
    &&& texts(field_at(one, path).value_type.attrs@) == texts(
        field_at(other, path).value_type.attrs@,
    )
}

/// Letting one field's value be missing, at any depth, appends a question mark to the type in that
/// field's row and changes nothing else in the listing.
pub proof fn lemma_nullable_marks_one_row(
    one: Seq<FieldSchema>,
    other: Seq<FieldSchema>,
    path: Seq<int>,
    prefix: Seq<char>,
)
    requires
        nullable_only_in_other_at(one, other, path),
    ensures
        fields_rows(other, prefix).len() == fields_rows(one, prefix).len(),
        0 <= row_index(one, path) < fields_rows(one, prefix).len(),
        fields_rows(one, prefix)[row_index(one, path)] == own_row(
            field_at(one, path),
            prefix_at(one, path, prefix),
        ),
        fields_rows(other, prefix)[row_index(one, path)] == (Row {
            typ: fields_rows(one, prefix)[row_index(one, path)].typ.push('?'),
            ..fields_rows(one, prefix)[row_index(one, path)]
        }),
        forall|j: int|
            0 <= j < fields_rows(one, prefix).len() && j != row_index(one, path) ==> (
            #[trigger] fields_rows(other, prefix)[j]) == fields_rows(one, prefix)[j],
{
    lemma_annotations_stay_in_their_row(one, other, path, prefix);
    lemma_each_field_has_its_place(one, prefix, path);
    lemma_same_type_at(one, other, path);
}

/// Where two schemas differ only in how a field is annotated, that field's type is the same in both.
proof fn lemma_same_type_at(one: Seq<FieldSchema>, other: Seq<FieldSchema>, path: Seq<int>)
    requires
        annotated_otherwise_at(one, other, path),
    ensures
        same_type(field_at(one, path).value_type.typ, field_at(other, path).value_type.typ),
    decreases path.len(),
{
    if path.len() > 1 {
        lemma_same_type_at(
            inner_fields(one[path[0]]),
            inner_fields(other[path[0]]),
            path.drop_first(),
        );
    }
}

} // verus!
