//! The mutex that knows its own record.
//!
//! The protected value can be changed by whoever holds the lock, on any
//! thread, so no contract here says what a mutex holds. The contracts say
//! where a mutex came from (`fresh_with`) and which guard a value was read
//! through (`sync::guarded`).
//!
//! The lock is taken on the primitive, which `deref` gives; the outcome goes
//! through `sync::recovered`, and the guard from there to `encode_with`.

use crate::codec::{
    decode_value, decode_value_with, decoded, decoded_with, encode_value, encoded, reads_first,
};
use crate::error::{DecodeError, DecodeErrorView, FieldError};
use crate::record::Record;
use crate::sync::guarded;
use vstd::prelude::*;
use vstd::std_specs::convert::FromSpecImpl;

verus! {

/// A value behind a mutual-exclusion primitive. It can be reached only while
/// the lock is held.
#[derive(Debug)]
#[verifier::reject_recursive_types(T)]
pub struct Mutex<T>(std::sync::Mutex<T>);

impl<T> Mutex<T> {
    /// The primitive that this mutex wraps.
    pub closed spec fn primitive(&self) -> std::sync::Mutex<T> {
        self.0
    }

    /// Whether this mutex was made for `value`: its primitive is what
    /// `std::sync::Mutex::new` returned for `value`. The standard library
    /// documents such a primitive as unlocked and holding `value`; what it
    /// holds later is not said by this.
    pub open spec fn fresh_with(&self, value: T) -> bool {
        call_ensures(std::sync::Mutex::<T>::new, (value,), self.primitive())
    }

    /// Wraps `inner` in a new, unlocked primitive.
    pub fn new(inner: T) -> (r: Self)
        ensures
            r.fresh_with(inner),
    {
        Mutex(std::sync::Mutex::new(inner))
    }

    /// Encodes what `guard` protects: hands the record of the protected
    /// value to `emit`, gives the lock back by dropping the guard, and returns
    /// what `emit` returned, a failure of it too. The record is named `Mutex`
    /// and has the one field `inner`, which carries the value.
    pub fn encode_with<'a, R, F: FnOnce(Record<'static, &T>) -> R>(
        guard: std::sync::MutexGuard<'a, T>,
        emit: F,
    ) -> (r: R)
        requires
            forall|record: Record<'static, &T>|
                (exists|value: &T| record@ == encoded(value)) ==> emit.requires((record,)),
        ensures
            exists|value: &T, record: Record<'static, &T>|
                #![auto]
                guarded(&guard, value) && record@ == encoded(value) && emit.ensures((record,), r),
    {
        let value: &T = &*guard;
        let record = encode_value(value);
        assert(guarded(&guard, value));
        emit(record)
    }

    /// Decodes a record whose field carries the value itself: a new mutex
    /// that holds the value of `inner`, or the first fault in the fields.
    pub fn decode<'a>(record: Record<'a, T>) -> (r: Result<Self, FieldError>)
        ensures
            match decoded(record@.fields) {
                Ok(value) => r matches Ok(m) && m.fresh_with(value),
                Err(fault) => r matches Err(e) && e@ == fault,
            },
    {
        match decode_value(record) {
            Ok(value) => Ok(Mutex::new(value)),
            Err(e) => Err(e),
        }
    }

    /// Decodes a record whose field carries an encoded value, which `decode`
    /// turns into the value: a new mutex that holds what `decode` gave for
    /// `inner`, or the first failure, that of `decode` unchanged.
    pub fn decode_with<'a, V, E, F: Fn(V) -> Result<T, E>>(record: Record<'a, V>, decode: F) -> (r:
        Result<Self, DecodeError<E>>)
        requires
            reads_first(record@.fields) ==> decode.requires((record@.fields[0].1,)),
        ensures
            exists|d: Result<T, DecodeErrorView<E>>|
                #![auto]
                decoded_with(record@.fields, decode, d) && match d {
                    Ok(value) => r matches Ok(m) && m.fresh_with(value),
                    Err(failure) => r matches Err(e) && e@ == failure,
                },
    {
        match decode_value_with(record, decode) {
            Ok(value) => Ok(Mutex::new(value)),
            Err(e) => Err(e),
        }
    }
}

impl<T> From<std::sync::Mutex<T>> for Mutex<T> {
    /// Adopts a primitive as it is, with what it holds.
    fn from(value: std::sync::Mutex<T>) -> (r: Self)
        ensures
            r.primitive() == value,
    {
        Mutex(value)
    }
}

impl<T> FromSpecImpl<std::sync::Mutex<T>> for Mutex<T> {
    open spec fn obeys_from_spec() -> bool {
        true
    }

    closed spec fn from_spec(value: std::sync::Mutex<T>) -> Self {
        Mutex(value)
    }
}

/// Each call makes another primitive, so what comes out is no function of
/// `value` alone: `from` states it, and `from_spec` stays unused.
impl<T> From<T> for Mutex<T> {
    /// Wraps `value` in a new, unlocked primitive, as `new` does.
    fn from(value: T) -> (r: Self)
        ensures
            r.fresh_with(value),
    {
        Mutex::new(value)
    }
}

impl<T> FromSpecImpl<T> for Mutex<T> {
    open spec fn obeys_from_spec() -> bool {
        false
    }

    open spec fn from_spec(value: T) -> Self {
        arbitrary()
    }
}

impl<T> std::ops::Deref for Mutex<T> {
    type Target = std::sync::Mutex<T>;

    /// The primitive itself: the lock is taken on it.
    fn deref(&self) -> (r: &std::sync::Mutex<T>)
        ensures
            *r == self.primitive(),
    {
        &self.0
    }
}

} // verus!
