//! The closed set of field names that the record of a mutex may carry.

use crate::error::{FieldError, FieldErrorView};
use crate::text::{same_bytes, same_text};
use vstd::prelude::*;
use vstd::utf8::{encode_utf8, encode_utf8_decode_utf8};

verus! {

/// A field of the record. There is exactly one.
#[derive(Clone, Copy, Debug, PartialEq, Eq, Structural)]
pub enum Field {
    /// The field `inner`, which carries the protected value.
    Inner,
}

/// The names of all fields, in the order of the record.
pub const FIELDS: [&'static str; 1] = ["inner"];

/// The name of `field` as a sequence of characters.
pub open spec fn field_name(field: Field) -> Seq<char> {
    match field {
        Field::Inner => "inner"@,
    }
}

/// The field that `name` stands for, if it stands for one.
pub open spec fn field_named(name: Seq<char>) -> Option<Field> {
    if name == "inner"@ {
        Some(Field::Inner)
    } else {
        None
    }
}

/// The field that the bytes `name` stand for, if they stand for one: they
/// are its name in UTF-8.
pub open spec fn field_of_bytes(name: Seq<u8>) -> Option<Field> {
    if name == encode_utf8("inner"@) {
        Some(Field::Inner)
    } else {
        None
    }
}

/// The field at `index` in the order of the record, if there is one.
pub open spec fn field_at(index: u64) -> Option<Field> {
    if index == 0 {
        Some(Field::Inner)
    } else {
        None
    }
}

impl Field {
    /// The name under which this field stands in a record.
    pub fn name(self) -> (r: &'static str)
        ensures
            r@ == field_name(self),
    {
        match self {
            Field::Inner => "inner",
        }
    }

    /// Tells which field `name` stands for. A name that stands for none is
    /// refused, not passed over: the error carries it.
    pub fn identify(name: &str) -> (r: Result<Field, FieldError>)
        ensures
            match r {
                Ok(f) => field_named(name@) == Some(f),
                Err(e) => field_named(name@) is None && e@ == FieldErrorView::UnknownField(name@),
            },
    {
        if same_text(name, "inner") {
            Ok(Field::Inner)
        } else {
            Err(FieldError::UnknownField(name.to_owned()))
        }
    }
}

impl Field {
    /// Tells which field a name given as bytes stands for, for an encoding
    /// that hands names over so. Bytes that are the name of no field, valid
    /// text or not, give `None`.
    pub fn identify_bytes(name: &[u8]) -> (r: Option<Field>)
        ensures
            r == field_of_bytes(name@),
    {
        if same_bytes(name, "inner".as_bytes()) {
            Some(Field::Inner)
        } else {
            None
        }
    }

    /// Tells which field stands at `index`, for an encoding that numbers the
    /// fields in place of naming them.
    pub fn at(index: u64) -> (r: Option<Field>)
        ensures
            r == field_at(index),
    {
        if index == 0 {
            Some(Field::Inner)
        } else {
            None
        }
    }
}

/// A name given as bytes stands for the field that the same name stands for
/// as text.
pub proof fn lemma_field_of_bytes_is_field_named(name: Seq<char>)
    ensures
        field_of_bytes(encode_utf8(name)) == field_named(name),
{
    encode_utf8_decode_utf8(name);
    encode_utf8_decode_utf8("inner"@);
}

/// The field at an index is the one whose name stands there in `FIELDS`, and
/// no index beyond `FIELDS` has a field.
pub proof fn lemma_field_at_follows_fields(index: u64)
    ensures
        match field_at(index) {
            Some(field) => index < FIELDS@.len() && FIELDS@[index as int]@ == field_name(field),
            None => index >= FIELDS@.len(),
        },
{
}

/// Each field is found again by its own name, and by no other name.
pub proof fn lemma_field_named_inverts_name(field: Field, name: Seq<char>)
    ensures
        field_named(field_name(field)) == Some(field),
        field_named(name) == Some(field) ==> name == field_name(field),
{
}

} // verus!
