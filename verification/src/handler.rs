//! The request handlers: each takes the lock on the shared store, runs one
//! store operation under it, and hands back what the page is rendered from.
//!
//! Handlers on other threads may change the store between any two calls, so
//! a handler's contract speaks only of its own result. What an operation does
//! to a store is said exactly by the contracts of [`Store`].

pub use crate::book::BookRequest;

use crate::book::{Book, Record};
use crate::error::Error;
use crate::laws::lemma_get_after_update;
use crate::stamp::{is_book_id, is_within_second};
use crate::store::{lemma_has_first, lookup, records, Store};
use std::ops::{Deref, DerefMut};
use std::sync::{Arc, PoisonError, RwLock, RwLockReadGuard, RwLockWriteGuard};
use vstd::prelude::*;

verus! {

/// `std::sync::RwLock`, opaque to the verifier.
#[verifier::external_type_specification]
#[verifier::external_body]
#[verifier::reject_recursive_types(T)]
pub struct ExRwLock<T: ?Sized>(RwLock<T>);

/// `std::sync::RwLockReadGuard`, opaque to the verifier.
#[verifier::external_type_specification]
#[verifier::external_body]
#[verifier::reject_recursive_types(T)]
pub struct ExRwLockReadGuard<'a, T: ?Sized>(RwLockReadGuard<'a, T>);

/// `std::sync::RwLockWriteGuard`, opaque to the verifier.
#[verifier::external_type_specification]
#[verifier::external_body]
#[verifier::reject_recursive_types(T)]
pub struct ExRwLockWriteGuard<'a, T: ?Sized + 'a>(RwLockWriteGuard<'a, T>);

/// `std::sync::PoisonError`, opaque to the verifier.
#[verifier::external_type_specification]
#[verifier::external_body]
#[verifier::reject_recursive_types(T)]
pub struct ExPoisonError<T>(PoisonError<T>);

/// A handle on the one store that all handlers share. Clones of a handle
/// refer to the same store.
#[derive(Clone)]
pub struct DB {
    store: Arc<RwLock<Store>>,
}

/// The records of the store that a lock was made around. This is fixed when
/// the lock is made; what the lock guards later is not a property of the lock
/// that a contract can speak of, since writers change it under a shared
/// reference.
pub uninterp spec fn made_around(lock: RwLock<Store>) -> Seq<Record>;

/// Puts a store behind a lock.
///
/// Trusted: calls `std::sync::RwLock::new`, which makes an unlocked lock
/// around the value it is given. The contract names that value's records as
/// what the lock was made around, and claims nothing else of the lock.
#[verifier::external_body]
fn new_lock(store: Store) -> (lock: RwLock<Store>)
    ensures
        made_around(lock) == store@,
{
    RwLock::new(store)
}

/// Takes the lock for reading, waiting for a writer to finish.
///
/// Trusted: calls `std::sync::RwLock::read`. Nothing is claimed of the
/// result: the call fails when the lock is poisoned, and the store under the
/// guard is whatever the last writer left. `read` may panic or block for
/// ever when the calling thread already holds the lock; the lock is private
/// to [`DB`] and every handler drops its guard before it returns, so that
/// does not arise.
#[verifier::external_body]
fn lock_shared<'a>(lock: &'a RwLock<Store>) -> (taken: Result<
    RwLockReadGuard<'a, Store>,
    PoisonError<RwLockReadGuard<'a, Store>>,
>) {
    lock.read()
}

/// Takes the lock for writing, waiting for readers and writers to finish.
///
/// Trusted: calls `std::sync::RwLock::write`. Nothing is claimed of the
/// result, for the reasons given at [`lock_shared`]; the same remark on a
/// thread that already holds the lock applies.
#[verifier::external_body]
fn lock_exclusive<'a>(lock: &'a RwLock<Store>) -> (taken: Result<
    RwLockWriteGuard<'a, Store>,
    PoisonError<RwLockWriteGuard<'a, Store>>,
>) {
    lock.write()
}

/// The store under a read guard.
///
/// Trusted: calls `Deref::deref` of `std::sync::RwLockReadGuard`. Nothing is
/// claimed of the store it refers to.
#[verifier::external_body]
fn read_guarded<'a, 'b>(guard: &'b RwLockReadGuard<'a, Store>) -> (store: &'b Store) {
    guard.deref()
}

/// The store under a write guard, open to change.
///
/// Trusted: calls `DerefMut::deref_mut` of `std::sync::RwLockWriteGuard`.
/// Nothing is claimed of the store it refers to.
#[verifier::external_body]
fn write_guarded<'a, 'b>(guard: &'b mut RwLockWriteGuard<'a, Store>) -> (store: &'b mut Store) {
    guard.deref_mut()
}

impl DB {
    /// The records that the store behind this handle held when it was made.
    pub closed spec fn started_with(&self) -> Seq<Record> {
        made_around(*self.store)
    }

    /// A handle on a new store, which starts empty.
    pub fn new() -> (db: DB)
        ensures
            db.started_with() == Seq::<Record>::empty(),
    {
        DB { store: Arc::new(new_lock(Store::new())) }
    }
}

/// What an attempt to take a lock comes to: the guard when it was taken,
/// [`Error::DBAccessError`] when the lock is poisoned.
pub fn access<G>(taken: Result<G, PoisonError<G>>) -> (held: Result<G, Error>)
    ensures
        match taken {
            Ok(guard) => held == Ok::<G, Error>(guard),
            Err(_) => held == Err::<G, Error>(Error::DBAccessError),
        },
{
    match taken {
        Ok(guard) => Ok(guard),
        Err(_) => Err(Error::DBAccessError),
    }
}

/// Lists the books.
///
/// Fails with [`Error::DBAccessError`], and only with it, when the lock
/// cannot be taken.
pub fn books_list_handler(db: &DB) -> (listed: Result<Vec<Book>, Error>)
    ensures
        listed matches Err(e) ==> e == Error::DBAccessError,
{
    match access(lock_shared(&db.store)) {
        Ok(guard) => Ok(read_guarded(&guard).list()),
        Err(e) => Err(e),
    }
}

/// Creates a book from `body` and lists the books as they stand right after,
/// under the same hold of the lock. The new book is the last of the list: it
/// has the fields of `body`, a fresh id and the current time.
///
/// Fails with [`Error::DBAccessError`], and only with it, when the lock
/// cannot be taken.
pub fn create_book_handler(body: BookRequest, db: &DB) -> (listed: Result<Vec<Book>, Error>)
    ensures
        match listed {
            Ok(snapshot) => {
                let s = records(snapshot@);
                &&& s.len() > 0
                &&& s.last().fields() == body@
                &&& is_book_id(s.last().id)
                &&& is_within_second(s.last().added_at)
            },
            Err(e) => e == Error::DBAccessError,
        },
{
    match access(lock_exclusive(&db.store)) {
        Ok(mut guard) => Ok(write_guarded(&mut guard).create(body)),
        Err(e) => Err(e),
    }
}

/// Fetches the book that carries `id`, for the edit form.
///
/// Fails with [`Error::BookNotFoundError`] when no book carries `id`, and
/// with [`Error::DBAccessError`] when the lock cannot be taken.
pub fn edit_book_handler(id: String, db: &DB) -> (found: Result<Book, Error>)
    ensures
        match found {
            Ok(book) => book@.id == id@,
            Err(e) => e == Error::BookNotFoundError || e == Error::DBAccessError,
        },
{
    match access(lock_shared(&db.store)) {
        Ok(guard) => {
            let store = read_guarded(&guard);
            let found = store.get(&id);
            proof {
                if found is Ok {
                    lemma_has_first(store@, id@);
                }
            }
            found
        },
        Err(e) => Err(e),
    }
}

/// Replaces the fields of the book that carries `id` by those of `body` and
/// lists the books as they stand right after, under the same hold of the
/// lock. The book found under `id` in the list has the fields of `body`.
///
/// Fails with [`Error::BookNotFoundError`] when no book carries `id`, and
/// with [`Error::DBAccessError`] when the lock cannot be taken.
pub fn do_edit_book_handler(id: String, body: BookRequest, db: &DB) -> (listed: Result<
    Vec<Book>,
    Error,
>)
    ensures
        match listed {
            Ok(snapshot) => lookup(records(snapshot@), id@) matches Some(r) && r.id == id@
                && r.fields() == body@,
            Err(e) => e == Error::BookNotFoundError || e == Error::DBAccessError,
        },
{
    match access(lock_exclusive(&db.store)) {
        Ok(mut guard) => {
            let store = write_guarded(&mut guard);
            let ghost before = store@;
            let ghost fields = body@;
            let listed = store.update(&id, body);
            proof {
                if listed is Ok {
                    lemma_get_after_update(before, id@, fields);
                }
            }
            listed
        },
        Err(e) => Err(e),
    }
}

/// Removes the book that carries `id` and lists the books as they stand
/// right after, under the same hold of the lock.
///
/// Fails with [`Error::BookNotFoundError`] when no book carries `id`, and
/// with [`Error::DBAccessError`] when the lock cannot be taken.
pub fn delete_book_handler(id: String, db: &DB) -> (listed: Result<Vec<Book>, Error>)
    ensures
        listed matches Err(e) ==> e == Error::BookNotFoundError || e == Error::DBAccessError,
{
    match access(lock_exclusive(&db.store)) {
        Ok(mut guard) => write_guarded(&mut guard).delete(&id),
        Err(e) => Err(e),
    }
}

} // verus!
