//! Typed records: what a record kind must say of itself for the codec to
//! carry it, and the typed encode and decode built on the generic codec.
use vstd::prelude::*;
use crate::codec::{decode, encode, spec_decode, spec_encode, spec_encode_entries, Entries};
use crate::error::{DecodeError, DecodeErrorView};
use crate::proofs::{
    lemma_any_order, lemma_decoded_record_conforms, lemma_extra_field, lemma_missing_field,
    lemma_round_trip,
};
use crate::schema::{fields_view, record_conforms, FieldValue, FieldValueView, Schema, SchemaView};
use crate::wire::{Value, ValueView};

verus! {

/// A record kind: a type with a schema, whose values can be laid out as field
/// values in schema order and assembled from them again.
pub trait Record: Sized + View {
    /// The schema of the record kind.
    spec fn spec_schema() -> SchemaView;

    /// The field values of a record, in schema order.
    spec fn spec_fields(record: Self::V) -> Seq<FieldValueView>;

    /// The record with the given field values.
    spec fn spec_assemble(fields: Seq<FieldValueView>) -> Self::V;

    /// The schema of the record kind.
    fn schema() -> (r: Schema)
        ensures
            r@ == Self::spec_schema(),
    ;

    /// The field values of the record, in schema order.
    fn to_fields(&self) -> (r: Vec<FieldValue>)
        ensures
            fields_view(r@) == Self::spec_fields(self@),
    ;

    /// The record with the given field values.
    fn from_fields(fields: &Vec<FieldValue>) -> (r: Self)
        requires
            record_conforms(fields_view(fields@), Self::spec_schema()),
        ensures
            r@ == Self::spec_assemble(fields_view(fields@)),
    ;

    /// The field values of a record are a record of the schema.
    proof fn lemma_fields_conform(record: Self::V)
        ensures
            record_conforms(Self::spec_fields(record), Self::spec_schema()),
    ;

    /// Assembling the field values of a record gives the record.
    proof fn lemma_assemble_fields(record: Self::V)
        ensures
            Self::spec_assemble(Self::spec_fields(record)) == record,
    ;

    /// No two fields share a name, in the record and in those nested in it.
    proof fn lemma_schema_wf()
        ensures
            Self::spec_schema().wf(),
    ;
}

/// What encoding a record gives.
pub open spec fn spec_to_value<R: Record>(record: R::V) -> ValueView {
    spec_encode(R::spec_fields(record), R::spec_schema())
}

/// What decoding a wire value into a record kind gives.
pub open spec fn spec_from_value<R: Record>(value: ValueView) -> Result<R::V, DecodeErrorView> {
    match spec_decode(R::spec_schema(), value) {
        Ok(fields) => Ok(R::spec_assemble(fields)),
        Err(e) => Err(e),
    }
}

/// The mathematical reading of the outcome of decoding into a record kind.
pub open spec fn outcome<R: Record>(r: Result<R, DecodeError>) -> Result<R::V, DecodeErrorView> {
    match r {
        Ok(record) => Ok(record@),
        Err(e) => Err(e@),
    }
}

/// Encodes a record as a wire map with one entry per field, in the order in
/// which the schema declares the fields.
pub fn to_value<R: Record>(record: &R) -> (r: Value)
    ensures
        r@ == spec_to_value::<R>(record@),
{
    let schema = R::schema();
    let fields = record.to_fields();
    proof {
        R::lemma_fields_conform(record@);
    }
    encode(&fields, &schema)
}

/// Decodes a wire value into a record, or says why it is not one.
pub fn from_value<R: Record>(value: Value) -> (r: Result<R, DecodeError>)
    ensures
        outcome(r) == spec_from_value::<R>(value@),
{
    let schema = R::schema();
    match decode(&schema, value) {
        Ok(fields) => {
            proof {
                lemma_decoded_record_conforms(schema@, value@);
            }
            Ok(R::from_fields(&fields))
        },
        Err(e) => Err(e),
    }
}

/// Round trip: decoding the encoding of a record gives the record back,
/// for every record kind and all field values.
pub proof fn lemma_record_round_trip<R: Record>(record: R::V)
    ensures
        spec_from_value::<R>(spec_to_value::<R>(record)) == Ok::<R::V, DecodeErrorView>(record),
{
    R::lemma_fields_conform(record);
    lemma_round_trip(R::spec_fields(record), R::spec_schema());
    R::lemma_assemble_fields(record);
}

/// The entries of the map that encoding a record gives.
pub open spec fn spec_entries<R: Record>(record: R::V) -> Entries {
    spec_encode_entries(R::spec_fields(record), R::spec_schema())
}

/// Order does not matter: a map that holds the entries of an encoded record
/// in any order decodes to that record.
pub proof fn lemma_record_any_order<R: Record>(record: R::V, entries: Entries)
    requires
        entries.to_multiset() == spec_entries::<R>(record).to_multiset(),
    ensures
        spec_from_value::<R>(ValueView::Mapping(entries)) == Ok::<R::V, DecodeErrorView>(record),
{
    R::lemma_fields_conform(record);
    R::lemma_schema_wf();
    lemma_any_order(R::spec_fields(record), R::spec_schema(), entries);
    R::lemma_assemble_fields(record);
}

/// Completeness: an encoded record from which the entry of field `k` was
/// taken decodes to the failure that names field `k` as missing.
pub proof fn lemma_record_missing_field<R: Record>(record: R::V, k: int)
    requires
        0 <= k < R::spec_schema().fields.len(),
    ensures
        spec_from_value::<R>(ValueView::Mapping(spec_entries::<R>(record).remove(k))) == Err::<
            R::V,
            DecodeErrorView,
        >(DecodeErrorView::FieldMissing(R::spec_schema().fields[k].name)),
{
    R::lemma_fields_conform(record);
    R::lemma_schema_wf();
    lemma_missing_field(R::spec_fields(record), R::spec_schema(), k);
}

/// Completeness: an encoded record into which one entry under a key that the
/// schema does not know was put, at any place, decodes to the failure that
/// reports exactly that key as surplus.
pub proof fn lemma_record_extra_field<R: Record>(
    record: R::V,
    key: Seq<char>,
    value: ValueView,
    q: int,
)
    requires
        !R::spec_schema().has_name(key),
        0 <= q <= R::spec_schema().fields.len(),
    ensures
        spec_from_value::<R>(
            ValueView::Mapping(spec_entries::<R>(record).insert(q, (key, value))),
        ) == Err::<R::V, DecodeErrorView>(DecodeErrorView::ExtraFieldsPresent(seq![key])),
{
    R::lemma_fields_conform(record);
    lemma_extra_field(R::spec_fields(record), R::spec_schema(), key, value, q);
}

} // verus!
