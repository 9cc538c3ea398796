//! What can be wrong with the shape of a record.

use crate::field::Field;
use vstd::prelude::*;

verus! {

/// A fault in the set of fields of a record.
#[derive(Debug, PartialEq, Eq)]
pub enum FieldError {
    /// The field stood in the record more than once.
    DuplicateField(Field),
    /// The record ended and the field had not stood in it.
    MissingField(Field),
    /// The record holds a field of this name, which is none of the known ones.
    UnknownField(String),
}

/// A `FieldError` with its text taken as a sequence of characters.
pub enum FieldErrorView {
    DuplicateField(Field),
    MissingField(Field),
    UnknownField(Seq<char>),
}

impl View for FieldError {
    type V = FieldErrorView;

    open spec fn view(&self) -> FieldErrorView {
        match self {
            FieldError::DuplicateField(f) => FieldErrorView::DuplicateField(*f),
            FieldError::MissingField(f) => FieldErrorView::MissingField(*f),
            FieldError::UnknownField(name) => FieldErrorView::UnknownField(name@),
        }
    }
}

/// What decoding a record can fail with: a fault in its fields, or the failure
/// of decoding the value of a field, handed on as it came.
#[derive(Debug, PartialEq, Eq)]
pub enum DecodeError<E> {
    /// The fields of the record are not those expected.
    Shape(FieldError),
    /// The value of a field could not be decoded.
    Inner(E),
}

/// A `DecodeError` with the text of its field fault taken as a sequence of
/// characters.
pub enum DecodeErrorView<E> {
    Shape(FieldErrorView),
    Inner(E),
}

impl<E> View for DecodeError<E> {
    type V = DecodeErrorView<E>;

    open spec fn view(&self) -> DecodeErrorView<E> {
        match self {
            DecodeError::Shape(e) => DecodeErrorView::Shape(e@),
            DecodeError::Inner(e) => DecodeErrorView::Inner(*e),
        }
    }
}

} // verus!
