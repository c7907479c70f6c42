use std::sync::Arc;
use vstd::prelude::*;
use crate::store::UserAuthStore;

verus! {

/// `lock_api::RwLock`, which `parking_lot::RwLock` names; held opaque.
#[verifier::external_type_specification]
#[verifier::external_body]
#[verifier::reject_recursive_types(R)]
#[verifier::reject_recursive_types(T)]
pub struct ExRwLock<R, T: ?Sized>(parking_lot::lock_api::RwLock<R, T>);

/// `parking_lot::RawRwLock`, the raw lock inside `parking_lot::RwLock`; held
/// opaque.
#[verifier::external_type_specification]
#[verifier::external_body]
pub struct ExRawRwLock(parking_lot::RawRwLock);

/// Relies on `lock_api::RwLock::new` (through `parking_lot::RwLock`): it only
/// moves the value into a new, unlocked lock.
#[verifier::external_body]
fn new_lock(store: Box<dyn UserAuthStore>) -> (r: parking_lot::RwLock<Box<dyn UserAuthStore>>) {
    parking_lot::RwLock::new(store)
}

/// Relies on `Clone for Arc`: the clone points to the same allocation and
/// only raises the reference count, so it is the same handle.
#[verifier::external_body]
fn share_lock(lock: &Arc<parking_lot::RwLock<Box<dyn UserAuthStore>>>) -> (r: Arc<
    parking_lot::RwLock<Box<dyn UserAuthStore>>,
>)
    ensures
        r == *lock,
{
    Arc::clone(lock)
}

/// Relies on `lock_api::RwLock::read`: `f` runs on the active store while a
/// shared read lock is held, and the lock is released before returning.
#[verifier::external_body]
fn read_with<F: FnOnce(&Box<dyn UserAuthStore>) -> Option<String>>(
    lock: &parking_lot::RwLock<Box<dyn UserAuthStore>>,
    f: F,
) -> (r: Option<String>)
    requires
        forall|s: &Box<dyn UserAuthStore>| f.requires((s,)),
{
    f(&*lock.read())
}

/// Relies on `lock_api::RwLock::write`: the exclusive lock keeps readers out
/// while the active store is replaced.
#[verifier::external_body]
fn write_store(lock: &parking_lot::RwLock<Box<dyn UserAuthStore>>, store: Box<dyn UserAuthStore>) {
    *lock.write() = store;
}

/// A handle to the active credential store, shared by every request.
///
/// Clones share the same store: readers run side by side, and a swap waits
/// until no reader holds the lock, so no reader sees a half-replaced store.
pub struct SharedStore {
    inner: Arc<parking_lot::RwLock<Box<dyn UserAuthStore>>>,
}

impl SharedStore {
    pub fn new(store: Box<dyn UserAuthStore>) -> (r: SharedStore) {
        SharedStore { inner: Arc::new(new_lock(store)) }
    }

    /// Asks the active store for its current token, under a read lock.
    pub fn current_token(&self) -> (r: Option<String>) {
        read_with(&self.inner, |s: &Box<dyn UserAuthStore>| s.get_authtoken())
    }

    /// Makes `store` the active store for every holder of this handle.
    pub fn swap(&self, store: Box<dyn UserAuthStore>) {
        write_store(&self.inner, store)
    }
}

impl Clone for SharedStore {
    /// Another handle to the same store; the store itself is not copied.
    fn clone(&self) -> (r: Self)
        ensures
            r == *self,
    {
        SharedStore { inner: share_lock(&self.inner) }
    }
}

} // verus!
