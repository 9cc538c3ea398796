//! The mutual-exclusion primitive of the standard library, as far as this
//! crate handles it.
//!
//! Taking a lock is left to the caller: the call waits for as long as the
//! lock is held, and for ever on a thread that holds it already, which is
//! nothing that a contract could rule out. This crate decides what is done
//! with the outcome of the call.
//!
//! What a primitive holds can be changed by whoever holds its lock, so no
//! contract here says what a guard gives access to. The contracts go by the
//! calls that were made: which guard was read.

use vstd::prelude::*;

verus! {

/// `std::sync::Mutex`, carried as it is: nothing inside it is seen here.
#[verifier::external_type_specification]
#[verifier::external_body]
#[verifier::reject_recursive_types(T)]
pub struct ExMutex<T: ?Sized>(std::sync::Mutex<T>);

/// `std::sync::MutexGuard`, the held lock: dropping it gives the lock back.
/// Nothing inside it is seen here.
#[verifier::external_type_specification]
#[verifier::external_body]
#[verifier::reject_recursive_types(T)]
pub struct ExMutexGuard<'a, T: ?Sized + 'a>(std::sync::MutexGuard<'a, T>);

/// `std::sync::PoisonError`, with which taking a lock tells that a holder of
/// the lock panicked. Nothing inside it is seen here.
#[verifier::external_type_specification]
#[verifier::external_body]
#[verifier::reject_recursive_types(T)]
pub struct ExPoisonError<T>(std::sync::PoisonError<T>);

/// `std::sync::Mutex::new`: makes an unlocked primitive that holds `t`.
/// Nothing is claimed of the primitive here.
pub assume_specification<T>[ std::sync::Mutex::<T>::new ](t: T) -> (m: std::sync::Mutex<T>);

/// `std::sync::PoisonError::into_inner`: hands out what the error carries.
/// Nothing is claimed of it here.
pub assume_specification<T>[ std::sync::PoisonError::<T>::into_inner ](
    e: std::sync::PoisonError<T>,
) -> (r: T);

/// `Deref::deref` of `std::sync::MutexGuard`: the protected value, for as long
/// as the guard is borrowed. Nothing is claimed of the value here.
pub assume_specification<'a, 'b, T: ?Sized>[ <std::sync::MutexGuard<'a, T> as std::ops::Deref>::deref ](
    g: &'b std::sync::MutexGuard<'a, T>,
) -> (r: &'b T);

/// Whether `value` is what `guard` gave access to.
pub open spec fn guarded<'a, 'b, T>(guard: &'b std::sync::MutexGuard<'a, T>, value: &'b T) -> bool {
    call_ensures(<std::sync::MutexGuard<'a, T> as std::ops::Deref>::deref, (guard,), value)
}

/// The guard in the outcome of taking a lock. A lock whose holder panicked
/// counts as taken like any other: the guard that came inside the error is
/// handed out, so the panic of one holder keeps the next one out of nothing.
pub fn recovered<'a, T>(
    r: Result<std::sync::MutexGuard<'a, T>, std::sync::PoisonError<std::sync::MutexGuard<'a, T>>>,
) -> (guard: std::sync::MutexGuard<'a, T>)
    ensures
        match r {
            Ok(g) => guard == g,
            Err(poisoned) => call_ensures(
                std::sync::PoisonError::<std::sync::MutexGuard<'a, T>>::into_inner,
                (poisoned,),
                guard,
            ),
        },
{
    match r {
        Ok(guard) => guard,
        Err(poisoned) => poisoned.into_inner(),
    }
}

} // verus!
