//! Decoding a record of a mutex field by field, as a reader hands the fields
//! over: first a field's name, then, if the name is accepted, its value.

use crate::error::{FieldError, FieldErrorView};
use crate::field::{field_named, Field};
use crate::mutex::Mutex;
use vstd::prelude::*;

verus! {

/// What is said of the shape that a decoder expects, where an input has
/// another shape.
pub const EXPECTING: &'static str = "a record named Mutex with field 'inner'";

/// What a field's name leads to, given whether the value of `inner` has been
/// taken already: the field whose value is to be read next, or the fault.
pub open spec fn key_step(seen: bool, key: Seq<char>) -> Result<Field, FieldErrorView> {
    match field_named(key) {
        None => Err(FieldErrorView::UnknownField(key)),
        Some(field) => if seen {
            Err(FieldErrorView::DuplicateField(field))
        } else {
            Ok(field)
        },
    }
}

/// What ending the record comes to in a state: the value of `inner`, or the
/// fault that it is missing.
pub open spec fn ended<T>(state: Option<T>) -> Result<T, FieldErrorView> {
    match state {
        Some(value) => Ok(value),
        None => Err(FieldErrorView::MissingField(Field::Inner)),
    }
}

/// The state that reading `fields` in order leads to from `state`, each field
/// by its name and then its value, or the first fault.
pub open spec fn visited<T>(state: Option<T>, fields: Seq<(Seq<char>, T)>) -> Result<
    Option<T>,
    FieldErrorView,
>
    decreases fields.len(),
{
    if fields.len() == 0 {
        Ok(state)
    } else {
        match key_step(state is Some, fields[0].0) {
            Err(fault) => Err(fault),
            Ok(_) => visited(Some(fields[0].1), fields.drop_first()),
        }
    }
}

/// The state of decoding one record: the value of `inner`, once it has been
/// read.
#[derive(Debug)]
pub struct MutexVisitor<T> {
    inner: Option<T>,
}

impl<T> View for MutexVisitor<T> {
    type V = Option<T>;

    closed spec fn view(&self) -> Option<T> {
        self.inner
    }
}

impl<T> MutexVisitor<T> {
    /// The state before any field has been read.
    pub fn new() -> (r: Self)
        ensures
            r@ is None,
    {
        MutexVisitor { inner: None }
    }

    /// The description of the expected shape.
    pub fn expecting(&self) -> (r: &'static str)
        ensures
            r@ == EXPECTING@,
    {
        EXPECTING
    }

    /// Decides on a field's name. `Ok` asks the caller to read the value of
    /// that field and to hand it to `visit_value`. A name that is not known
    /// is refused, and so is `inner` once its value has been taken; the value
    /// that follows such a name is not to be read.
    pub fn visit_key(&self, key: &str) -> (r: Result<Field, FieldError>)
        ensures
            match r {
                Ok(field) => key_step(self@ is Some, key@) == Ok::<Field, FieldErrorView>(field),
                Err(e) => key_step(self@ is Some, key@) == Err::<Field, FieldErrorView>(e@),
            },
    {
        match Field::identify(key) {
            Err(e) => Err(e),
            Ok(field) => {
                if self.inner.is_some() {
                    Err(FieldError::DuplicateField(field))
                } else {
                    Ok(field)
                }
            },
        }
    }

    /// Takes the value of `field`. Where a value has been taken before, the
    /// state stays as it is and the field is reported as a duplicate.
    pub fn visit_value(&mut self, field: Field, value: T) -> (r: Result<(), FieldError>)
        ensures
            match old(self)@ {
                None => r is Ok && final(self)@ == Some(value),
                Some(_) => r == Err::<(), FieldError>(FieldError::DuplicateField(field))
                    && final(self)@ == old(self)@,
            },
    {
        if self.inner.is_some() {
            return Err(FieldError::DuplicateField(field));
        }
        match field {
            Field::Inner => {
                self.inner = Some(value);
            },
        }
        Ok(())
    }

    /// Ends the record: the value of `inner`, or the fault that it is missing.
    pub fn into_value(self) -> (r: Result<T, FieldError>)
        ensures
            match r {
                Ok(value) => ended(self@) == Ok::<T, FieldErrorView>(value),
                Err(e) => ended(self@) == Err::<T, FieldErrorView>(e@),
            },
    {
        match self.inner {
            Some(value) => Ok(value),
            None => Err(FieldError::MissingField(Field::Inner)),
        }
    }

    /// Ends the record: a new mutex that holds the value of `inner`, or the
    /// fault that it is missing.
    pub fn finish(self) -> (r: Result<Mutex<T>, FieldError>)
        ensures
            match ended(self@) {
                Ok(value) => r matches Ok(m) && m.fresh_with(value),
                Err(fault) => r matches Err(e) && e@ == fault,
            },
    {
        match self.into_value() {
            Ok(value) => Ok(Mutex::new(value)),
            Err(e) => Err(e),
        }
    }
}

} // verus!
