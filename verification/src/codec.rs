//! The record of a mutex: what a protected value is encoded to, and what a
//! record is decoded to.

use crate::error::{DecodeError, DecodeErrorView, FieldError, FieldErrorView};
use crate::field::{field_name, field_named, Field};
use crate::record::{Record, RecordView};
use crate::visitor::{ended, visited, MutexVisitor};
use vstd::prelude::*;

verus! {

/// The name of the record.
pub const RECORD_NAME: &'static str = "Mutex";

/// The record that stands for a mutex which holds `value`: the one field
/// `inner`, which carries the value.
pub open spec fn encoded<V>(value: V) -> RecordView<V> {
    RecordView { name: RECORD_NAME@, fields: seq![(field_name(Field::Inner), value)] }
}

/// What the fields of a record decode to. They are read in order, and the
/// first fault ends the reading: a name that is not known, or `inner` for the
/// second time. A record that ends without `inner` lacks it. So the one
/// record that decodes to a value is the single field `inner`.
pub open spec fn decoded<V>(fields: Seq<(Seq<char>, V)>) -> Result<V, FieldErrorView> {
    if fields.len() == 0 {
        Err(FieldErrorView::MissingField(Field::Inner))
    } else if field_named(fields[0].0) is None {
        Err(FieldErrorView::UnknownField(fields[0].0))
    } else if fields.len() == 1 {
        Ok(fields[0].1)
    } else if field_named(fields[1].0) is None {
        Err(FieldErrorView::UnknownField(fields[1].0))
    } else {
        Err(FieldErrorView::DuplicateField(Field::Inner))
    }
}

/// Whether the value of the first field of a record is read: there is a
/// first field, and its name is a known one.
pub open spec fn reads_first<V>(fields: Seq<(Seq<char>, V)>) -> bool {
    fields.len() > 0 && field_named(fields[0].0) is Some
}

/// What becomes of a record whose first field is `inner`, once the value of
/// that field has been decoded with the result `d`: a failure of the decoding
/// is the result, unchanged; else `rest`, what the fields of the record come
/// to, decides between the decoded value and a fault.
pub open spec fn settled<V, T, E>(d: Result<T, E>, rest: Result<V, FieldErrorView>) -> Result<
    T,
    DecodeErrorView<E>,
> {
    match d {
        Err(e) => Err(DecodeErrorView::Inner(e)),
        Ok(value) => match rest {
            Ok(_) => Ok(value),
            Err(fault) => Err(DecodeErrorView::Shape(fault)),
        },
    }
}

/// Whether `r` is what `fields` may decode to where the values of the fields
/// are themselves decoded by `decode`. Where the value of the first field is
/// not read, the fault in the fields is the result, and `decode` is not
/// asked. Else `decode` is asked for that value, and the result is settled by
/// what it gave.
pub open spec fn decoded_with<V, T, E, F: Fn(V) -> Result<T, E>>(
    fields: Seq<(Seq<char>, V)>,
    decode: F,
    r: Result<T, DecodeErrorView<E>>,
) -> bool {
    if reads_first(fields) {
        exists|d: Result<T, E>| #[trigger]
            decode.ensures((fields[0].1,), d) && r == settled(d, decoded(fields))
    } else {
        decoded(fields) matches Err(fault) && r == Err::<T, DecodeErrorView<E>>(
            DecodeErrorView::Shape(fault),
        )
    }
}

/// Builds the record for `value`.
pub fn encode_value<V>(value: V) -> (r: Record<'static, V>)
    ensures
        r@ == encoded(value),
{
    Record::single(RECORD_NAME, Field::Inner.name(), value)
}

/// Reads the fields of `record` in order, decodes the value of `inner` with
/// `decode`, and gives what came of it, or the first failure: a fault in the
/// fields, or the failure of `decode`, handed on as it came. `decode` is not
/// called on the value of a field that is refused. The name of the record is
/// not looked at.
pub fn decode_value_with<'a, V, T, E, F: Fn(V) -> Result<T, E>>(
    record: Record<'a, V>,
    decode: F,
) -> (r: Result<T, DecodeError<E>>)
    requires
        reads_first(record@.fields) ==> decode.requires((record@.fields[0].1,)),
    ensures
        decoded_with(
            record@.fields,
            decode,
            match r {
                Ok(value) => Ok(value),
                Err(e) => Err(e@),
            },
        ),
{
    let ghost all = record@.fields;
    let mut visitor: MutexVisitor<T> = MutexVisitor::new();
    let fields = record.fields;
    let ghost mut first: Result<T, E> = arbitrary();
    for entry in it: fields
        invariant
            all == record@.fields,
            reads_first(all) ==> decode.requires((all[0].1,)),
            it.seq().len() == all.len(),
            forall|k: int| 0 <= k < all.len() ==> (#[trigger] it.seq()[k])@ == all[k],
            it.index() <= 1,
            it.index() == 0 ==> visitor@ is None,
            it.index() == 1 ==> field_named(all[0].0) is Some && first is Ok && visitor@ == Some(
                first->Ok_0,
            ) && decode.ensures((all[0].1,), first),
    {
        match visitor.visit_key(entry.key) {
            Err(e) => {
                return Err(DecodeError::Shape(e));
            },
            Ok(field) => {
                let d = decode(entry.value);
                proof {
                    first = d;
                }
                match d {
                    Err(e) => {
                        return Err(DecodeError::Inner(e));
                    },
                    Ok(value) => {
                        match visitor.visit_value(field, value) {
                            Err(e) => {
                                return Err(DecodeError::Shape(e));
                            },
                            Ok(()) => {},
                        }
                    },
                }
            },
        }
    }
    match visitor.into_value() {
        Ok(value) => Ok(value),
        Err(e) => Err(DecodeError::Shape(e)),
    }
}

/// Reads the fields of `record` in order and gives the value of `inner`, or
/// the first fault. The name of the record is not looked at.
pub fn decode_value<'a, V>(record: Record<'a, V>) -> (r: Result<V, FieldError>)
    ensures
        match r {
            Ok(value) => decoded(record@.fields) == Ok::<V, FieldErrorView>(value),
            Err(e) => decoded(record@.fields) == Err::<V, FieldErrorView>(e@),
        },
{
    let keep = |v: V| -> (d: Result<V, FieldError>)
        ensures
            d == Ok::<V, FieldError>(v),
        { Ok(v) };
    match decode_value_with(record, keep) {
        Ok(value) => Ok(value),
        Err(DecodeError::Shape(e)) => Err(e),
        Err(DecodeError::Inner(e)) => Err(e),
    }
}

/// Decoding undoes encoding: the record of a value decodes to that value.
pub proof fn lemma_decode_inverts_encode<V>(value: V)
    ensures
        decoded(encoded(value).fields) == Ok::<V, FieldErrorView>(value),
{
}

/// The record of a value is named `Mutex` and has exactly one field, which is
/// named `inner` and carries the value.
pub proof fn lemma_encoded_has_one_field<V>(value: V)
    ensures
        encoded(value).name == RECORD_NAME@,
        encoded(value).fields.len() == 1,
        encoded(value).fields[0].0 == "inner"@,
        encoded(value).fields[0].1 == value,
{
}

/// A record decodes to a value exactly if it is the single field `inner`, and
/// then to what that field carries.
pub proof fn lemma_decoded_is_ok_iff_single_inner<V>(fields: Seq<(Seq<char>, V)>)
    ensures
        decoded(fields) is Ok <==> fields.len() == 1 && fields[0].0 == "inner"@,
        decoded(fields) is Ok ==> decoded(fields) == Ok::<V, FieldErrorView>(fields[0].1),
{
}

/// A record in which `inner` stands twice, at `i` and at `j`, is refused as
/// holding a duplicate of `inner`, whatever the two fields carry, provided
/// that every name before the second `inner` is a known one. (A name that is
/// not known is refused where it stands, before the duplicate is reached.)
pub proof fn lemma_second_inner_is_duplicate<V>(fields: Seq<(Seq<char>, V)>, i: int, j: int)
    requires
        0 <= i < j < fields.len(),
        fields[i].0 == "inner"@,
        fields[j].0 == "inner"@,
        forall|k: int| 0 <= k < j ==> field_named(#[trigger] fields[k].0) is Some,
    ensures
        decoded(fields) == Err::<V, FieldErrorView>(FieldErrorView::DuplicateField(Field::Inner)),
{
}

/// A record in which `inner` does not stand is refused: as lacking `inner`
/// where it holds no field at all, else for the name of its first field,
/// which is not known.
pub proof fn lemma_without_inner_is_refused<V>(fields: Seq<(Seq<char>, V)>)
    requires
        forall|k: int| 0 <= k < fields.len() ==> #[trigger] fields[k].0 != "inner"@,
    ensures
        fields.len() == 0 ==> decoded(fields) == Err::<V, FieldErrorView>(
            FieldErrorView::MissingField(Field::Inner),
        ),
        fields.len() > 0 ==> decoded(fields) == Err::<V, FieldErrorView>(
            FieldErrorView::UnknownField(fields[0].0),
        ),
{
}

/// A record in which `inner` does not stand, and no name that is not known
/// either, is refused as lacking `inner`.
pub proof fn lemma_missing_inner<V>(fields: Seq<(Seq<char>, V)>)
    requires
        forall|k: int| 0 <= k < fields.len() ==> #[trigger] fields[k].0 != "inner"@,
        forall|k: int| 0 <= k < fields.len() ==> field_named(#[trigger] fields[k].0) is Some,
    ensures
        decoded(fields) == Err::<V, FieldErrorView>(FieldErrorView::MissingField(Field::Inner)),
{
}

/// Reading a record field by field from the start, and ending it, comes to
/// what the record decodes to.
pub proof fn lemma_visiting_decodes<V>(fields: Seq<(Seq<char>, V)>)
    ensures
        decoded(fields) == match visited(None::<V>, fields) {
            Ok(state) => ended(state),
            Err(fault) => Err(fault),
        },
{
    reveal_with_fuel(visited, 3);
}

/// Decoding the record of an encoded value with `decode` gives what `decode`
/// gives for that value, a failure too, and nothing else: the record adds no
/// failure of its own.
pub proof fn lemma_decoded_with_of_encoded<V, T, E, F: Fn(V) -> Result<T, E>>(
    raw: V,
    decode: F,
    r: Result<T, DecodeErrorView<E>>,
)
    ensures
        decoded_with(encoded(raw).fields, decode, r) <==> (exists|d: Result<T, E>| #[trigger]
            decode.ensures((raw,), d) && r == settled(d, Ok::<V, FieldErrorView>(raw))),
        forall|d: Result<T, E>| #[trigger]
            settled(d, Ok::<V, FieldErrorView>(raw)) is Ok <==> d is Ok,
{
    lemma_decode_inverts_encode(raw);
}

} // verus!
