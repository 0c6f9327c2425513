//! The one connection that every operation shares, and its lock.

use vstd::prelude::*;
use std::sync::{Mutex, MutexGuard};
use crate::errors::StoreError;

verus! {

/// `std::sync::Mutex`. Nothing inside it is visible to the proofs.
#[verifier::external_type_specification]
#[verifier::external_body]
#[verifier::reject_recursive_types(T)]
pub struct ExMutex<T: ?Sized>(Mutex<T>);

/// `std::sync::MutexGuard`, which holds the lock until it is dropped.
#[verifier::external_type_specification]
#[verifier::external_body]
#[verifier::reject_recursive_types(T)]
pub struct ExMutexGuard<'a, T: ?Sized + 'a>(MutexGuard<'a, T>);

/// The connection to the database, behind the lock that lets one operation
/// at a time use it.
pub struct DbState(pub Mutex<rusqlite::Connection>);

/// Calls `std::sync::Mutex::lock`, which waits until the lock is free. It
/// fails where an earlier holder panicked; the error is then written with
/// `to_string`. Whether it fails depends on what other threads did, so
/// nothing is claimed of the outcome.
#[verifier::external_body]
pub(crate) fn lock_connection(db: &DbState) -> (guard: Result<
    MutexGuard<'_, rusqlite::Connection>,
    String,
>) {
    db.0.lock().map_err(|poisoned| poisoned.to_string())
}

/// Calls `deref` on a `std::sync::MutexGuard`: the connection that the
/// guard protects.
#[verifier::external_body]
pub(crate) fn guarded<'a>(guard: &'a MutexGuard<'_, rusqlite::Connection>) -> (conn:
    &'a rusqlite::Connection) {
    guard
}

/// Takes the lock for as long as the guard lives. A lock that cannot be
/// had is an error, not a wait without end.
pub fn acquire(db: &DbState) -> (res: Result<MutexGuard<'_, rusqlite::Connection>, StoreError>)
    ensures
        res matches Err(failure) ==> failure is Lock,
{
    lock_answer(lock_connection(db))
}

/// What taking the lock returns for an answer of the lock: the guard where
/// it was had, else a lock failure with the lock's own description.
pub fn lock_answer<'a>(outcome: Result<MutexGuard<'a, rusqlite::Connection>, String>) -> (res:
    Result<MutexGuard<'a, rusqlite::Connection>, StoreError>)
    ensures
        res == match outcome {
            Ok(guard) => Ok::<MutexGuard<'a, rusqlite::Connection>, StoreError>(guard),
            Err(description) => Err::<MutexGuard<'a, rusqlite::Connection>, StoreError>(
                StoreError::Lock(description),
            ),
        },
{
    match outcome {
        Ok(guard) => Ok(guard),
        Err(description) => Err(StoreError::Lock(description)),
    }
}

} // verus!
