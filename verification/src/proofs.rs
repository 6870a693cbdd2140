//! What holds of the codec for every schema and every record.
use vstd::prelude::*;
use crate::codec::{
    entry_keys, has_key, is_first_position, lemma_position_is, lemma_position_none, position,
    spec_decode, spec_decode_field, spec_decode_from, spec_decode_records, spec_encode,
    spec_encode_entries, spec_encode_field, spec_encode_records, Entries,
};
use crate::error::DecodeErrorView;
use crate::schema::{
    record_conforms, FieldDescriptorView, FieldTypeView, FieldValueView, SchemaView,
};
use crate::wire::ValueView;

verus! {

/// A value that a field accepts is of the field's type.
pub proof fn lemma_decoded_field_conforms(field: FieldDescriptorView, value: ValueView)
    requires
        spec_decode_field(field, value) is Ok,
    ensures
        spec_decode_field(field, value)->Ok_0.conforms(field.ty),
    decreases field, 0nat,
{
    match field.ty {
        FieldTypeView::Record(schema) => {
            lemma_decoded_record_conforms(schema, value);
        },
        FieldTypeView::Repeated(schema) => {
            let items = value->Array_0;
            let records = spec_decode_field(field, value)->Ok_0->Repeated_0;
            assert forall|k: int| 0 <= k < records.len() implies record_conforms(
                #[trigger] records[k],
                schema,
            ) by {
                assert(spec_decode(schema, items[k]) is Ok);
                lemma_decoded_record_conforms(schema, items[k]);
            }
        },
        _ => {},
    }
}

/// Decoding from field `i` on, with conforming values for the fields before
/// it, gives a record of the schema or fails.
proof fn lemma_decoded_from_conforms(
    schema: SchemaView,
    i: int,
    entries: Entries,
    done: Seq<FieldValueView>,
)
    requires
        0 <= i <= schema.fields.len(),
        done.len() == i,
        forall|j: int| 0 <= j < i ==> (#[trigger] done[j]).conforms(schema.fields[j].ty),
        spec_decode_from(schema.fields, i, entries, done) is Ok,
    ensures
        record_conforms(spec_decode_from(schema.fields, i, entries, done)->Ok_0, schema),
    decreases schema.fields, schema.fields.len() - i,
{
    if i < schema.fields.len() {
        let field = schema.fields[i];
        let p = position(entries, field.name)->Some_0;
        lemma_decoded_field_conforms(field, entries[p].1);
        let v = spec_decode_field(field, entries[p].1)->Ok_0;
        lemma_decoded_from_conforms(schema, i + 1, entries.remove(p), done.push(v));
    }
}

/// Whatever decoding returns as a record is a record of the schema: it has
/// one value per field, each of its field's type, down through nested records.
pub proof fn lemma_decoded_record_conforms(schema: SchemaView, value: ValueView)
    requires
        spec_decode(schema, value) is Ok,
    ensures
        record_conforms(spec_decode(schema, value)->Ok_0, schema),
    decreases schema, 0nat,
{
    lemma_decoded_from_conforms(schema, 0, value->Mapping_0, Seq::empty());
}

/// Converting the encoding of a field value gives the value back.
pub proof fn lemma_field_round_trip(value: FieldValueView, field: FieldDescriptorView)
    requires
        value.conforms(field.ty),
    ensures
        spec_decode_field(field, spec_encode_field(value, field.ty)) == Ok::<
            FieldValueView,
            DecodeErrorView,
        >(value),
    decreases field, 0nat,
{
    match field.ty {
        FieldTypeView::Record(schema) => {
            lemma_round_trip(value->Record_0, schema);
        },
        FieldTypeView::Repeated(schema) => {
            let records = value->Repeated_0;
            let items = spec_encode_records(records, schema);
            assert forall|k: int| 0 <= k < items.len() implies spec_decode(
                schema,
                #[trigger] items[k],
            ) == Ok::<Seq<FieldValueView>, DecodeErrorView>(records[k]) by {
                assert(record_conforms(records[k], schema));
                lemma_round_trip(records[k], schema);
            }
            assert(Seq::new(items.len(), |k: int| spec_decode(schema, items[k])->Ok_0)
                =~= records);
            assert(spec_decode_records(schema, items) == Some(records));
            assert(spec_encode_field(value, field.ty) == ValueView::Array(items));
        },
        _ => {},
    }
}

/// Decoding the encoded entries from field `i` on, with the first `i` values
/// already in hand, gives the record back.
proof fn lemma_round_trip_from(fields: Seq<FieldValueView>, schema: SchemaView, i: int)
    requires
        record_conforms(fields, schema),
        0 <= i <= schema.fields.len(),
    ensures
        spec_decode_from(
            schema.fields,
            i,
            spec_encode_entries(fields, schema).subrange(i, schema.fields.len() as int),
            fields.subrange(0, i),
        ) == Ok::<Seq<FieldValueView>, DecodeErrorView>(fields),
    decreases schema.fields, schema.fields.len() - i,
{
    let n = schema.fields.len() as int;
    let all = spec_encode_entries(fields, schema);
    let entries = all.subrange(i, n);
    let done = fields.subrange(0, i);
    if i < n {
        let field = schema.fields[i];
        assert(entries[0] == all[i]);
        lemma_position_is(entries, field.name, 0);
        assert(fields[i].conforms(field.ty));
        lemma_field_round_trip(fields[i], field);
        assert(entries.remove(0) == all.subrange(i + 1, n));
        assert(done.push(fields[i]) == fields.subrange(0, i + 1));
        lemma_round_trip_from(fields, schema, i + 1);
    } else {
        assert(done == fields);
    }
}

/// Round trip: decoding what encoding a record gave returns that record,
/// whatever its field values are.
pub proof fn lemma_round_trip(fields: Seq<FieldValueView>, schema: SchemaView)
    requires
        record_conforms(fields, schema),
    ensures
        spec_decode(schema, spec_encode(fields, schema)) == Ok::<
            Seq<FieldValueView>,
            DecodeErrorView,
        >(fields),
    decreases schema, 0nat,
{
    let all = spec_encode_entries(fields, schema);
    assert(all.subrange(0, schema.fields.len() as int) == all);
    assert(fields.subrange(0, 0) == Seq::<FieldValueView>::empty());
    lemma_round_trip_from(fields, schema, 0);
}

/// Decoding the encoded entries without entry `k`, from field `i <= k` on,
/// reports field `k` as missing.
proof fn lemma_missing_from(fields: Seq<FieldValueView>, schema: SchemaView, k: int, i: int)
    requires
        record_conforms(fields, schema),
        schema.names_unique(),
        0 <= i <= k < schema.fields.len(),
    ensures
        spec_decode_from(
            schema.fields,
            i,
            spec_encode_entries(fields, schema).subrange(i, schema.fields.len() as int).remove(
                k - i,
            ),
            fields.subrange(0, i),
        ) == Err::<Seq<FieldValueView>, DecodeErrorView>(
            DecodeErrorView::FieldMissing(schema.fields[k].name),
        ),
    decreases k - i,
{
    let n = schema.fields.len() as int;
    let all = spec_encode_entries(fields, schema);
    let entries = all.subrange(i, n).remove(k - i);
    let done = fields.subrange(0, i);
    let field = schema.fields[i];
    if i < k {
        assert(entries[0] == all[i]);
        lemma_position_is(entries, field.name, 0);
        assert(fields[i].conforms(field.ty));
        lemma_field_round_trip(fields[i], field);
        assert(entries.remove(0) == all.subrange(i + 1, n).remove(k - i - 1));
        assert(done.push(fields[i]) == fields.subrange(0, i + 1));
        lemma_missing_from(fields, schema, k, i + 1);
    } else {
        assert forall|j: int| 0 <= j < entries.len() implies (#[trigger] entries[j]).0
            != field.name by {
            assert(entries[j] == all[k + 1 + j]);
            assert(schema.fields[k + 1 + j].name != schema.fields[k].name);
        }
        lemma_position_none(entries, field.name);
    }
}

/// Completeness: when the entry of one field is taken out of an encoded
/// record, decoding fails and names exactly that field as missing.
pub proof fn lemma_missing_field(fields: Seq<FieldValueView>, schema: SchemaView, k: int)
    requires
        record_conforms(fields, schema),
        schema.names_unique(),
        0 <= k < schema.fields.len(),
    ensures
        spec_decode(schema, ValueView::Mapping(spec_encode_entries(fields, schema).remove(k)))
            == Err::<Seq<FieldValueView>, DecodeErrorView>(
            DecodeErrorView::FieldMissing(schema.fields[k].name),
        ),
{
    let all = spec_encode_entries(fields, schema);
    assert(all.subrange(0, schema.fields.len() as int) == all);
    assert(fields.subrange(0, 0) == Seq::<FieldValueView>::empty());
    lemma_missing_from(fields, schema, k, 0);
}

/// Decoding the encoded entries with one more entry put in at place `q`,
/// from field `i` on, reports the key of that entry as surplus.
proof fn lemma_extra_from(
    fields: Seq<FieldValueView>,
    schema: SchemaView,
    key: Seq<char>,
    value: ValueView,
    q: int,
    i: int,
)
    requires
        record_conforms(fields, schema),
        !schema.has_name(key),
        0 <= i <= schema.fields.len(),
        0 <= q <= schema.fields.len() - i,
    ensures
        spec_decode_from(
            schema.fields,
            i,
            spec_encode_entries(fields, schema).subrange(i, schema.fields.len() as int).insert(
                q,
                (key, value),
            ),
            fields.subrange(0, i),
        ) == Err::<Seq<FieldValueView>, DecodeErrorView>(
            DecodeErrorView::ExtraFieldsPresent(seq![key]),
        ),
    decreases schema.fields.len() - i,
{
    let n = schema.fields.len() as int;
    let all = spec_encode_entries(fields, schema);
    let entries = all.subrange(i, n).insert(q, (key, value));
    let done = fields.subrange(0, i);
    if i < n {
        let field = schema.fields[i];
        assert(field.name != key);
        assert(fields[i].conforms(field.ty));
        lemma_field_round_trip(fields[i], field);
        assert(done.push(fields[i]) == fields.subrange(0, i + 1));
        if q == 0 {
            assert(entries[0] == (key, value));
            assert(entries[1] == all[i]);
            lemma_position_is(entries, field.name, 1);
            assert(entries.remove(1) == all.subrange(i + 1, n).insert(0, (key, value)));
            lemma_extra_from(fields, schema, key, value, 0, i + 1);
        } else {
            assert(entries[0] == all[i]);
            lemma_position_is(entries, field.name, 0);
            assert(entries.remove(0) == all.subrange(i + 1, n).insert(q - 1, (key, value)));
            lemma_extra_from(fields, schema, key, value, q - 1, i + 1);
        }
    } else {
        assert(entries.len() == 1);
        assert(entry_keys(entries) == seq![key]);
    }
}

/// Completeness: when one entry under a key that the schema does not know is
/// put anywhere into an encoded record, decoding fails and reports exactly
/// that key as surplus.
pub proof fn lemma_extra_field(
    fields: Seq<FieldValueView>,
    schema: SchemaView,
    key: Seq<char>,
    value: ValueView,
    q: int,
)
    requires
        record_conforms(fields, schema),
        !schema.has_name(key),
        0 <= q <= schema.fields.len(),
    ensures
        spec_decode(
            schema,
            ValueView::Mapping(spec_encode_entries(fields, schema).insert(q, (key, value))),
        ) == Err::<Seq<FieldValueView>, DecodeErrorView>(
            DecodeErrorView::ExtraFieldsPresent(seq![key]),
        ),
{
    let all = spec_encode_entries(fields, schema);
    assert(all.subrange(0, schema.fields.len() as int) == all);
    assert(fields.subrange(0, 0) == Seq::<FieldValueView>::empty());
    lemma_extra_from(fields, schema, key, value, q, 0);
}

/// A key that some entry has is found, at the first entry that has it.
pub proof fn lemma_position_exists(entries: Entries, name: Seq<char>, p: int)
    requires
        0 <= p < entries.len(),
        entries[p].0 == name,
    ensures
        position(entries, name) is Some,
        is_first_position(entries, name, position(entries, name)->Some_0),
        position(entries, name)->Some_0 <= p,
    decreases p,
{
    if exists|j: int| 0 <= j < p && (#[trigger] entries[j]).0 == name {
        let j = choose|j: int| 0 <= j < p && (#[trigger] entries[j]).0 == name;
        lemma_position_exists(entries, name, j);
    } else {
        lemma_position_is(entries, name, p);
    }
}

/// Decoding from field `i` on, from entries that are the encoded entries of
/// the fields from `i` on in some order, gives the record back.
proof fn lemma_any_order_from(
    fields: Seq<FieldValueView>,
    schema: SchemaView,
    i: int,
    entries: Entries,
)
    requires
        record_conforms(fields, schema),
        schema.names_unique(),
        0 <= i <= schema.fields.len(),
        entries.to_multiset() == spec_encode_entries(fields, schema).subrange(
            i,
            schema.fields.len() as int,
        ).to_multiset(),
    ensures
        spec_decode_from(schema.fields, i, entries, fields.subrange(0, i)) == Ok::<
            Seq<FieldValueView>,
            DecodeErrorView,
        >(fields),
    decreases schema.fields.len() - i,
{
    let n = schema.fields.len() as int;
    let all = spec_encode_entries(fields, schema);
    let rest = all.subrange(i, n);
    let done = fields.subrange(0, i);
    entries.to_multiset_ensures();
    rest.to_multiset_ensures();
    if i < n {
        let field = schema.fields[i];
        assert(rest[0] == all[i]);
        assert(rest.contains(all[i]));
        assert(entries.to_multiset().count(all[i]) > 0);
        assert(entries.contains(all[i]));
        let p0 = choose|p0: int| 0 <= p0 < entries.len() && entries[p0] == all[i];
        lemma_position_exists(entries, field.name, p0);
        let p = position(entries, field.name)->Some_0;
        assert(entries.contains(entries[p]));
        assert(rest.to_multiset().count(entries[p]) > 0);
        assert(rest.contains(entries[p]));
        let j = choose|j: int| 0 <= j < rest.len() && rest[j] == entries[p];
        assert(rest[j] == all[i + j]);
        assert(schema.fields[i + j].name == field.name);
        assert(j == 0);
        assert(fields[i].conforms(field.ty));
        lemma_field_round_trip(fields[i], field);
        assert(rest.remove(0) == all.subrange(i + 1, n));
        assert(entries.remove(p).to_multiset() == all.subrange(i + 1, n).to_multiset());
        assert(done.push(fields[i]) == fields.subrange(0, i + 1));
        lemma_any_order_from(fields, schema, i + 1, entries.remove(p));
    } else {
        assert(rest.len() == 0);
        assert(entries.len() == 0);
        assert(done == fields);
    }
}

/// Fields are found by name, not by place: a map that holds the encoded
/// entries of a record in any order decodes to that record, provided that no
/// two fields of the schema share a name.
pub proof fn lemma_any_order(fields: Seq<FieldValueView>, schema: SchemaView, entries: Entries)
    requires
        record_conforms(fields, schema),
        schema.names_unique(),
        entries.to_multiset() == spec_encode_entries(fields, schema).to_multiset(),
    ensures
        spec_decode(schema, ValueView::Mapping(entries)) == Ok::<
            Seq<FieldValueView>,
            DecodeErrorView,
        >(fields),
{
    let all = spec_encode_entries(fields, schema);
    assert(all.subrange(0, schema.fields.len() as int) == all);
    assert(fields.subrange(0, 0) == Seq::<FieldValueView>::empty());
    lemma_any_order_from(fields, schema, 0, entries);
}

/// An encoded record has exactly one entry per field of the schema, keyed by
/// the field's name, in schema order.
pub proof fn lemma_encoded_shape(fields: Seq<FieldValueView>, schema: SchemaView)
    ensures
        spec_encode(fields, schema) is Mapping,
        spec_encode(fields, schema)->Mapping_0.len() == schema.fields.len(),
        forall|i: int|
            0 <= i < schema.fields.len() ==> (#[trigger] spec_encode(
                fields,
                schema,
            )->Mapping_0[i]).0 == schema.fields[i].name,
{
}

/// Where decoding from field `i` on succeeds, the entries are as many as the
/// fields from `i` on, and each of those fields has an entry.
proof fn lemma_success_from(
    fields: Seq<FieldDescriptorView>,
    i: int,
    entries: Entries,
    done: Seq<FieldValueView>,
)
    requires
        0 <= i <= fields.len(),
        spec_decode_from(fields, i, entries, done) is Ok,
    ensures
        entries.len() == fields.len() - i,
        forall|j: int| i <= j < fields.len() ==> has_key(entries, (#[trigger] fields[j]).name),
    decreases fields.len() - i,
{
    if i < fields.len() {
        let p = position(entries, fields[i].name)->Some_0;
        let v = spec_decode_field(fields[i], entries[p].1)->Ok_0;
        let rest = entries.remove(p);
        lemma_success_from(fields, i + 1, rest, done.push(v));
        assert forall|j: int| i <= j < fields.len() implies has_key(
            entries,
            (#[trigger] fields[j]).name,
        ) by {
            if j == i {
                assert(entries[p].0 == fields[j].name);
            } else {
                assert(has_key(rest, fields[j].name));
                let q = choose|q: int|
                    0 <= q < rest.len() && (#[trigger] rest[q]).0 == fields[j].name;
                if q < p {
                    assert(entries[q] == rest[q]);
                } else {
                    assert(entries[q + 1] == rest[q]);
                }
            }
        }
    }
}

/// All or nothing: decoding gives a record only for a map that has exactly
/// as many entries as the schema has fields and an entry for every field.
pub proof fn lemma_success_is_complete(schema: SchemaView, value: ValueView)
    requires
        spec_decode(schema, value) is Ok,
    ensures
        value is Mapping,
        value->Mapping_0.len() == schema.fields.len(),
        forall|j: int|
            0 <= j < schema.fields.len() ==> has_key(
                value->Mapping_0,
                (#[trigger] schema.fields[j]).name,
            ),
{
    lemma_success_from(schema.fields, 0, value->Mapping_0, Seq::empty());
}

/// A value that is not a map decodes to no record, whatever the schema.
pub proof fn lemma_not_a_map(schema: SchemaView, value: ValueView)
    requires
        !(value is Mapping),
    ensures
        spec_decode(schema, value) == Err::<Seq<FieldValueView>, DecodeErrorView>(
            DecodeErrorView::NotAMap,
        ),
{
}

} // verus!
