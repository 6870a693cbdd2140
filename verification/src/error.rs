//! The ways in which decoding and the spatial operations fail.
use vstd::prelude::*;
use crate::schema::TypeTag;
use crate::wire::Integer;

verus! {

/// Why a wire value could not be decoded into a record.
#[derive(Debug, PartialEq)]
pub enum DecodeError {
    /// The value to decode was not a map.
    NotAMap,
    /// The map has no entry for the named field.
    FieldMissing(String),
    /// The named field is there, but its value is not of the expected type.
    FieldTypeMismatch(String, TypeTag),
    /// The map holds entries that the schema does not know; their keys, in
    /// the order in which the map holds them.
    ExtraFieldsPresent(Vec<String>),
    /// The integer names no variant of the enumeration.
    InvalidEnumTag(Integer),
}

/// Mathematical counterpart of [`DecodeError`].
pub enum DecodeErrorView {
    NotAMap,
    FieldMissing(Seq<char>),
    FieldTypeMismatch(Seq<char>, TypeTag),
    ExtraFieldsPresent(Seq<Seq<char>>),
    InvalidEnumTag(int),
}

/// The views of a list of strings, item by item.
pub open spec fn names_view(names: Seq<String>) -> Seq<Seq<char>> {
    Seq::new(names.len(), |i: int| names[i]@)
}

impl View for DecodeError {
    type V = DecodeErrorView;

    open spec fn view(&self) -> DecodeErrorView {
        match self {
            DecodeError::NotAMap => DecodeErrorView::NotAMap,
            DecodeError::FieldMissing(name) => DecodeErrorView::FieldMissing(name@),
            DecodeError::FieldTypeMismatch(name, expected) => DecodeErrorView::FieldTypeMismatch(
                name@,
                *expected,
            ),
            DecodeError::ExtraFieldsPresent(names) => DecodeErrorView::ExtraFieldsPresent(
                names_view(names@),
            ),
            DecodeError::InvalidEnumTag(tag) => DecodeErrorView::InvalidEnumTag(tag@),
        }
    }
}

/// Why a quaternion operation was refused.
#[derive(Clone, Copy, Debug, PartialEq, Eq, Structural)]
pub enum AlgebraError {
    /// A rotation was asked of a rotor whose length is not exactly one.
    QuaternionNotNormalized,
    /// A quaternion of zero norm was to be inverted or normalized.
    DivisionByZeroNorm,
}

} // verus!
