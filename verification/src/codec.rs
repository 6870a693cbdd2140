//! The generic codec between records and wire values.
//!
//! Encoding writes a map with one entry per field of the schema, in schema
//! order. Decoding reads a map back: it takes the fields in schema order,
//! looks each one up by name wherever it stands in the map, converts its
//! value, and at the end refuses whatever the schema did not ask for. It
//! returns the whole record or the first failure, never a part of a record.
use vstd::prelude::*;
use crate::error::{names_view, DecodeError, DecodeErrorView};
use crate::schema::{
    fields_view, is_record_of, lemma_fields_view_push, lemma_records_view_push, record_conforms,
    records_view, FieldDescriptor, FieldDescriptorView, FieldType, FieldTypeView, FieldValue, FieldValueView,
    Schema, SchemaView,
};
use crate::wire::{
    copy_bytes, entries_view, items_view, lemma_entries_view_push, lemma_entries_view_remove,
    lemma_items_view_push, Integer, Value, ValueView,
};

verus! {

/// The entries of a wire map, as the contracts see them.
pub type Entries = Seq<(Seq<char>, ValueView)>;

/// What encoding one field value gives. A nested record takes its field
/// names from the schema of its type; a list of records becomes an array of
/// their encodings, in order.
pub open spec fn spec_encode_field(value: FieldValueView, ty: FieldTypeView) -> ValueView
    decreases ty, 0nat,
{
    match value {
        FieldValueView::Boolean(b) => ValueView::Boolean(b),
        FieldValueView::Unsigned(n) => ValueView::Integer(n as int),
        FieldValueView::Float(d) => ValueView::Float(d),
        FieldValueView::Text(s) => ValueView::String(s),
        FieldValueView::Binary(b) => ValueView::Binary(b),
        FieldValueView::Enumeration(n) => ValueView::Integer(n as int),
        FieldValueView::Record(fields) => match ty {
            FieldTypeView::Record(schema) => spec_encode(fields, schema),
            _ => ValueView::Nil,
        },
        FieldValueView::Repeated(records) => match ty {
            FieldTypeView::Repeated(schema) => ValueView::Array(
                spec_encode_records(records, schema),
            ),
            _ => ValueView::Nil,
        },
    }
}

/// The encodings of a list of records of one schema, record by record.
pub open spec fn spec_encode_records(
    records: Seq<Seq<FieldValueView>>,
    schema: SchemaView,
) -> Seq<ValueView>
    decreases schema, 3nat,
{
    Seq::new(records.len(), |k: int| spec_encode(records[k], schema))
}

/// The entries that encoding a record gives: entry `i` is the name of field
/// `i` with the encoding of value `i`.
pub open spec fn spec_encode_entries(fields: Seq<FieldValueView>, schema: SchemaView) -> Entries
    decreases schema, 1nat,
{
    Seq::new(
        schema.fields.len(),
        |i: int|
            if 0 <= i < schema.fields.len() {
                (schema.fields[i].name, spec_encode_field(fields[i], schema.fields[i].ty))
            } else {
                (Seq::empty(), ValueView::Nil)
            },
    )
}

/// What encoding a record gives: a map of [`spec_encode_entries`].
pub open spec fn spec_encode(fields: Seq<FieldValueView>, schema: SchemaView) -> ValueView
    decreases schema, 2nat,
{
    ValueView::Mapping(spec_encode_entries(fields, schema))
}

/// Whether `p` is the place of the first entry with the given key.
pub open spec fn is_first_position(entries: Entries, name: Seq<char>, p: int) -> bool {
    &&& 0 <= p < entries.len()
    &&& entries[p].0 == name
    &&& forall|j: int| 0 <= j < p ==> (#[trigger] entries[j]).0 != name
}

/// The place of the first entry with the given key, if there is one.
pub open spec fn position(entries: Entries, name: Seq<char>) -> Option<int> {
    if exists|p: int| is_first_position(entries, name, p) {
        Some(choose|p: int| is_first_position(entries, name, p))
    } else {
        None
    }
}

/// Whether some entry has the given key.
pub open spec fn has_key(entries: Entries, name: Seq<char>) -> bool {
    exists|p: int| 0 <= p < entries.len() && (#[trigger] entries[p]).0 == name
}

/// The keys of the entries, in order.
pub open spec fn entry_keys(entries: Entries) -> Seq<Seq<char>> {
    Seq::new(entries.len(), |i: int| entries[i].0)
}

/// The failure that reports a value of the wrong type for a field.
pub open spec fn mismatch(field: FieldDescriptorView) -> DecodeErrorView {
    DecodeErrorView::FieldTypeMismatch(field.name, field.ty.tag())
}

/// What converting a wire value to the type of a field gives.
///
/// A primitive field takes the one wire variant that matches it; an unsigned
/// field takes any integer that is not negative. An enumeration takes an
/// integer and refuses, by its value, one that names no variant. A nested
/// record is decoded in turn, and any failure inside it is reported as a
/// mismatch of this field. A list of records takes an array whose every item
/// decodes as a record of the list's schema.
pub open spec fn spec_decode_field(field: FieldDescriptorView, value: ValueView) -> Result<
    FieldValueView,
    DecodeErrorView,
>
    decreases field, 0nat,
{
    match field.ty {
        FieldTypeView::Boolean => match value {
            ValueView::Boolean(b) => Ok(FieldValueView::Boolean(b)),
            _ => Err(mismatch(field)),
        },
        FieldTypeView::Unsigned => match value {
            ValueView::Integer(n) => if 0 <= n <= u64::MAX {
                Ok(FieldValueView::Unsigned(n as u64))
            } else {
                Err(mismatch(field))
            },
            _ => Err(mismatch(field)),
        },
        FieldTypeView::Float => match value {
            ValueView::Float(d) => Ok(FieldValueView::Float(d)),
            _ => Err(mismatch(field)),
        },
        FieldTypeView::Text => match value {
            ValueView::String(s) => Ok(FieldValueView::Text(s)),
            _ => Err(mismatch(field)),
        },
        FieldTypeView::Binary => match value {
            ValueView::Binary(b) => Ok(FieldValueView::Binary(b)),
            _ => Err(mismatch(field)),
        },
        FieldTypeView::Enumeration(count) => match value {
            ValueView::Integer(n) => if 0 <= n < count {
                Ok(FieldValueView::Enumeration(n as u64))
            } else {
                Err(DecodeErrorView::InvalidEnumTag(n))
            },
            _ => Err(mismatch(field)),
        },
        FieldTypeView::Record(schema) => match spec_decode(schema, value) {
            Ok(fields) => Ok(FieldValueView::Record(fields)),
            Err(_) => Err(mismatch(field)),
        },
        FieldTypeView::Repeated(schema) => match value {
            ValueView::Array(items) => match spec_decode_records(schema, items) {
                Some(records) => Ok(FieldValueView::Repeated(records)),
                None => Err(mismatch(field)),
            },
            _ => Err(mismatch(field)),
        },
    }
}

/// What decoding every item of an array as a record of the schema gives: the
/// records in order, or nothing where some item is no such record.
pub open spec fn spec_decode_records(schema: SchemaView, items: Seq<ValueView>) -> Option<
    Seq<Seq<FieldValueView>>,
>
    decreases schema, 1nat,
{
    if forall|k: int| 0 <= k < items.len() ==> spec_decode(schema, #[trigger] items[k]) is Ok {
        Some(Seq::new(items.len(), |k: int| spec_decode(schema, items[k])->Ok_0))
    } else {
        None
    }
}

/// Decoding from field `i` on, with the entries not yet taken and the values
/// decoded so far.
///
/// When no field is left, the entries must be used up. Otherwise field `i` is
/// looked up by name; its first entry is taken out of the map and converted.
pub open spec fn spec_decode_from(
    fields: Seq<FieldDescriptorView>,
    i: int,
    entries: Entries,
    done: Seq<FieldValueView>,
) -> Result<Seq<FieldValueView>, DecodeErrorView>
    decreases fields, fields.len() - i,
{
    if i < 0 || i >= fields.len() {
        if entries.len() == 0 {
            Ok(done)
        } else {
            Err(DecodeErrorView::ExtraFieldsPresent(entry_keys(entries)))
        }
    } else {
        match position(entries, fields[i].name) {
            None => Err(DecodeErrorView::FieldMissing(fields[i].name)),
            Some(p) => match spec_decode_field(fields[i], entries[p].1) {
                Err(e) => Err(e),
                Ok(v) => spec_decode_from(fields, i + 1, entries.remove(p), done.push(v)),
            },
        }
    }
}

/// What decoding a wire value against a schema gives: the field values in
/// schema order, or the first failure.
pub open spec fn spec_decode(schema: SchemaView, value: ValueView) -> Result<
    Seq<FieldValueView>,
    DecodeErrorView,
>
    decreases schema, 0nat,
{
    match value {
        ValueView::Mapping(entries) => spec_decode_from(schema.fields, 0, entries, Seq::empty()),
        _ => Err(DecodeErrorView::NotAMap),
    }
}

/// The mathematical reading of the outcome of decoding one field.
pub open spec fn field_outcome(r: Result<FieldValue, DecodeError>) -> Result<
    FieldValueView,
    DecodeErrorView,
> {
    match r {
        Ok(v) => Ok(v@),
        Err(e) => Err(e@),
    }
}

/// The mathematical reading of the outcome of decoding a record.
pub open spec fn record_outcome(r: Result<Vec<FieldValue>, DecodeError>) -> Result<
    Seq<FieldValueView>,
    DecodeErrorView,
> {
    match r {
        Ok(fields) => Ok(fields_view(fields@)),
        Err(e) => Err(e@),
    }
}

/// The first place of a key is the only place that is a first place.
pub proof fn lemma_position_is(entries: Entries, name: Seq<char>, p: int)
    requires
        is_first_position(entries, name, p),
    ensures
        position(entries, name) == Some(p),
{
    let q = choose|q: int| is_first_position(entries, name, q);
    if q < p {
        assert(entries[q].0 != name);
    }
    if p < q {
        assert(entries[p].0 != name);
    }
}

/// A key that no entry has is found nowhere.
pub proof fn lemma_position_none(entries: Entries, name: Seq<char>)
    requires
        forall|j: int| 0 <= j < entries.len() ==> (#[trigger] entries[j]).0 != name,
    ensures
        position(entries, name) == None::<int>,
{
    if exists|p: int| is_first_position(entries, name, p) {
        let p = choose|p: int| is_first_position(entries, name, p);
        assert(entries[p].0 != name);
    }
}

/// Encodes one field value of the given type.
pub fn encode_field(value: &FieldValue, ty: &FieldType) -> (r: Value)
    requires
        value@.conforms(ty@),
    ensures
        r@ == spec_encode_field(value@, ty@),
    decreases ty, 0nat,
{
    match value {
        FieldValue::Boolean(b) => Value::Boolean(*b),
        FieldValue::Unsigned(n) => Value::Integer(Integer::from_u64(*n)),
        FieldValue::Float(d) => Value::Float(*d),
        FieldValue::Text(s) => Value::String(s.clone()),
        FieldValue::Binary(b) => Value::Binary(copy_bytes(b)),
        FieldValue::Enumeration(n) => Value::Integer(Integer::from_u64(*n)),
        FieldValue::Record(fields) => match ty {
            FieldType::Record(schema) => encode(fields, schema),
            _ => Value::Nil,
        },
        FieldValue::Repeated(records) => match ty {
            FieldType::Repeated(schema) => Value::Array(encode_records(records, schema)),
            _ => Value::Nil,
        },
    }
}

/// Encodes each record of a list, in order.
fn encode_records(records: &Vec<Vec<FieldValue>>, schema: &Schema) -> (r: Vec<Value>)
    requires
        forall|k: int|
            0 <= k < records@.len() ==> record_conforms(
                #[trigger] records_view(records@)[k],
                schema@,
            ),
    ensures
        items_view(r@) == spec_encode_records(records_view(records@), schema@),
    decreases schema, 3nat,
{
    let mut items: Vec<Value> = Vec::new();
    let mut k: usize = 0;
    while k < records.len()
        invariant
            k <= records.len(),
            forall|j: int|
                0 <= j < records@.len() ==> record_conforms(
                    #[trigger] records_view(records@)[j],
                    schema@,
                ),
            items_view(items@) == spec_encode_records(records_view(records@), schema@).subrange(
                0,
                k as int,
            ),
        decreases records.len() - k,
    {
        assert(record_conforms(records_view(records@)[k as int], schema@));
        let item = encode(&records[k], schema);
        proof {
            lemma_items_view_push(items@, item);
            let all = spec_encode_records(records_view(records@), schema@);
            assert(all.subrange(0, k + 1) == all.subrange(0, k as int).push(all[k as int]));
        }
        items.push(item);
        k += 1;
    }
    assert(spec_encode_records(records_view(records@), schema@).subrange(
        0,
        records@.len() as int,
    ) == spec_encode_records(records_view(records@), schema@));
    items
}

/// Encodes a record: a map with one entry per field of the schema, in schema
/// order, each keyed by the field's name.
pub fn encode(fields: &Vec<FieldValue>, schema: &Schema) -> (r: Value)
    requires
        record_conforms(fields_view(fields@), schema@),
    ensures
        r@ == spec_encode(fields_view(fields@), schema@),
    decreases schema, 2nat,
{
    let mut entries: Vec<(String, Value)> = Vec::new();
    let mut i: usize = 0;
    while i < schema.fields.len()
        invariant
            i <= schema.fields.len(),
            record_conforms(fields_view(fields@), schema@),
            entries_view(entries@) == spec_encode_entries(fields_view(fields@), schema@).subrange(
                0,
                i as int,
            ),
        decreases schema.fields.len() - i,
    {
        let field = &schema.fields[i];
        assert(schema@.fields[i as int] == field@);
        assert(fields_view(fields@)[i as int].conforms(schema@.fields[i as int].ty));
        let encoded = encode_field(&fields[i], &field.ty);
        let entry = (field.name.clone(), encoded);
        proof {
            lemma_entries_view_push(entries@, entry);
            let all = spec_encode_entries(fields_view(fields@), schema@);
            assert(all.subrange(0, i + 1) == all.subrange(0, i as int).push(all[i as int]));
        }
        entries.push(entry);
        i += 1;
    }
    assert(spec_encode_entries(fields_view(fields@), schema@).subrange(
        0,
        schema@.fields.len() as int,
    ) == spec_encode_entries(fields_view(fields@), schema@));
    Value::Mapping(entries)
}

/// Encodes the field values as a record of the schema, if they are one.
pub fn try_encode(fields: &Vec<FieldValue>, schema: &Schema) -> (r: Option<Value>)
    ensures
        match r {
            Some(value) => record_conforms(fields_view(fields@), schema@) && value@
                == spec_encode(fields_view(fields@), schema@),
            None => !record_conforms(fields_view(fields@), schema@),
        },
{
    if is_record_of(fields, schema) {
        Some(encode(fields, schema))
    } else {
        None
    }
}

/// The place of the first entry with the given key.
fn find_key(entries: &Vec<(String, Value)>, name: &String) -> (r: Option<usize>)
    ensures
        match r {
            Some(p) => position(entries_view(entries@), name@) == Some(p as int) && p
                < entries.len(),
            None => position(entries_view(entries@), name@) == None::<int>,
        },
{
    let mut j: usize = 0;
    while j < entries.len()
        invariant
            j <= entries.len(),
            forall|k: int| 0 <= k < j ==> (#[trigger] entries_view(entries@)[k]).0 != name@,
        decreases entries.len() - j,
    {
        if entries[j].0 == *name {
            proof {
                lemma_position_is(entries_view(entries@), name@, j as int);
            }
            return Some(j);
        }
        j += 1;
    }
    proof {
        lemma_position_none(entries_view(entries@), name@);
    }
    None
}

/// The keys of the entries, in order.
fn keys_of(entries: &Vec<(String, Value)>) -> (r: Vec<String>)
    ensures
        names_view(r@) == entry_keys(entries_view(entries@)),
{
    let mut keys: Vec<String> = Vec::new();
    let mut j: usize = 0;
    while j < entries.len()
        invariant
            j <= entries.len(),
            names_view(keys@) == entry_keys(entries_view(entries@)).subrange(0, j as int),
        decreases entries.len() - j,
    {
        let key = entries[j].0.clone();
        proof {
            let all = entry_keys(entries_view(entries@));
            assert(all.subrange(0, j + 1) == all.subrange(0, j as int).push(all[j as int]));
            assert(names_view(keys@.push(key)) == names_view(keys@).push(key@));
        }
        keys.push(key);
        j += 1;
    }
    assert(entry_keys(entries_view(entries@)).subrange(0, entries@.len() as int) == entry_keys(
        entries_view(entries@),
    ));
    keys
}

/// The failure that reports a value of the wrong type for the field.
fn type_mismatch(field: &FieldDescriptor) -> (r: DecodeError)
    ensures
        r@ == mismatch(field@),
{
    DecodeError::FieldTypeMismatch(field.name.clone(), field.ty.tag())
}

/// Converts a wire value to the type of a field.
pub fn decode_field(field: &FieldDescriptor, value: Value) -> (r: Result<FieldValue, DecodeError>)
    ensures
        field_outcome(r) == spec_decode_field(field@, value@),
    decreases field, 0nat,
{
    match &field.ty {
        FieldType::Boolean => match value {
            Value::Boolean(b) => Ok(FieldValue::Boolean(b)),
            _ => Err(type_mismatch(field)),
        },
        FieldType::Unsigned => match value {
            Value::Integer(n) => match n.as_u64() {
                Some(u) => Ok(FieldValue::Unsigned(u)),
                None => Err(type_mismatch(field)),
            },
            _ => Err(type_mismatch(field)),
        },
        FieldType::Float => match value {
            Value::Float(d) => Ok(FieldValue::Float(d)),
            _ => Err(type_mismatch(field)),
        },
        FieldType::Text => match value {
            Value::String(s) => Ok(FieldValue::Text(s)),
            _ => Err(type_mismatch(field)),
        },
        FieldType::Binary => match value {
            Value::Binary(b) => Ok(FieldValue::Binary(b)),
            _ => Err(type_mismatch(field)),
        },
        FieldType::Enumeration(count) => match value {
            Value::Integer(n) => match n.as_u64() {
                Some(u) => if u < *count {
                    Ok(FieldValue::Enumeration(u))
                } else {
                    Err(DecodeError::InvalidEnumTag(n))
                },
                None => Err(DecodeError::InvalidEnumTag(n)),
            },
            _ => Err(type_mismatch(field)),
        },
        FieldType::Record(schema) => match decode(schema, value) {
            Ok(fields) => Ok(FieldValue::Record(fields)),
            Err(_) => Err(type_mismatch(field)),
        },
        FieldType::Repeated(schema) => match value {
            Value::Array(items) => {
                match decode_records(schema, items) {
                    Some(records) => Ok(FieldValue::Repeated(records)),
                    None => Err(type_mismatch(field)),
                }
            },
            _ => Err(type_mismatch(field)),
        },
    }
}

/// Decodes each item of an array as a record of the schema; nothing, unless
/// every item decodes.
fn decode_records(schema: &Schema, items: Vec<Value>) -> (r: Option<Vec<Vec<FieldValue>>>)
    ensures
        match r {
            Some(records) => spec_decode_records(schema@, items_view(items@)) == Some(
                records_view(records@),
            ),
            None => spec_decode_records(schema@, items_view(items@)) is None,
        },
    decreases schema, 1nat,
{
    let mut records: Vec<Vec<FieldValue>> = Vec::new();
    for item in it: items.into_iter()
        invariant
            it.seq() == items@,
            records@.len() == it.index(),
            forall|k: int|
                0 <= k < records@.len() ==> spec_decode(schema@, #[trigger] items_view(items@)[k])
                    == Ok::<Seq<FieldValueView>, DecodeErrorView>(records_view(records@)[k]),
    {
        let ghost k = records@.len() as int;
        assert(items_view(items@)[k] == item@);
        match decode(schema, item) {
            Ok(fields) => {
                proof {
                    lemma_records_view_push(records@, fields);
                }
                records.push(fields);
            },
            Err(_) => {
                proof {
                    assert(spec_decode(schema@, items_view(items@)[k]) is Err);
                }
                return None;
            },
        }
    }
    proof {
        assert(Seq::new(
            items_view(items@).len(),
            |k: int| spec_decode(schema@, items_view(items@)[k])->Ok_0,
        ) =~= records_view(records@));
    }
    Some(records)
}

/// Decodes a wire value against a schema.
///
/// The value must be a map. Every field of the schema must have an entry,
/// found by its name wherever it stands; its value must convert to the
/// field's type; and the map must hold nothing else. The result is the field
/// values in schema order, or the first failure met while taking the fields in
/// schema order.
pub fn decode(schema: &Schema, value: Value) -> (r: Result<Vec<FieldValue>, DecodeError>)
    ensures
        record_outcome(r) == spec_decode(schema@, value@),
    decreases schema, 0nat,
{
    let ghost whole = value@;
    match value {
        Value::Mapping(entries) => {
            let mut entries = entries;
            let mut done: Vec<FieldValue> = Vec::new();
            let mut i: usize = 0;
            assert(fields_view(done@) == Seq::<FieldValueView>::empty());
            while i < schema.fields.len()
                invariant
                    i <= schema.fields.len(),
                    whole == value@,
                    spec_decode_from(
                        schema@.fields,
                        i as int,
                        entries_view(entries@),
                        fields_view(done@),
                    ) == spec_decode(schema@, whole),
                decreases schema.fields.len() - i,
            {
                let field = &schema.fields[i];
                assert(schema@.fields[i as int] == field@);
                match find_key(&entries, &field.name) {
                    None => {
                        return Err(DecodeError::FieldMissing(field.name.clone()));
                    },
                    Some(p) => {
                        let ghost before = entries@;
                        let entry = entries.remove(p);
                        proof {
                            lemma_entries_view_remove(before, p as int);
                        }
                        match decode_field(field, entry.1) {
                            Err(e) => {
                                return Err(e);
                            },
                            Ok(v) => {
                                proof {
                                    lemma_fields_view_push(done@, v);
                                }
                                done.push(v);
                            },
                        }
                    },
                }
                i += 1;
            }
            if entries.len() == 0 {
                Ok(done)
            } else {
                Err(DecodeError::ExtraFieldsPresent(keys_of(&entries)))
            }
        },
        _ => Err(DecodeError::NotAMap),
    }
}

} // verus!
