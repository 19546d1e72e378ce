use vstd::prelude::*;

use core::any::Any;
use core::hash::Hash;
use core::hash::Hasher;

use atomic_refcell::AtomicRef;
use atomic_refcell::AtomicRefCell;
use atomic_refcell::AtomicRefMut;

use crate::errors::AccessError;

verus! {

/// A value that can live in the resource store.
///
/// This trait is implemented automatically for every type that meets its
/// bounds. Every stored type must be thread-safe (`Send + Sync`): a store can
/// hand out a thread-transferable access handle at any time, so the
/// capability is demanded once, when a value's type is admitted, rather than
/// at each cross-thread access.
pub trait Resource: 'static + Send + Sync {
}

impl<T: 'static + Send + Sync> Resource for T {
}

#[verifier::external_type_specification]
#[verifier::external_body]
#[verifier::reject_recursive_types(T)]
pub struct ExAtomicRef<'b, T: ?Sized>(AtomicRef<'b, T>);

#[verifier::external_type_specification]
#[verifier::external_body]
#[verifier::reject_recursive_types(T)]
pub struct ExAtomicRefMut<'b, T: ?Sized + 'b>(AtomicRefMut<'b, T>);

/// One type-erased slot: a stored value of some concrete type together with
/// its run-time borrow tracker.
///
/// The tracker is the atomic borrow count inside `AtomicRefCell`; the
/// discipline it enforces is the state machine stated by
/// [`BorrowState`](crate::tracker::BorrowState). Typed access is recovered by
/// checking the caller's expected type against the runtime type of the
/// stored value.
#[verifier::external_body]
pub struct ResourceCell {
    inner: AtomicRefCell<Box<dyn Any + Send + Sync>>,
}

impl ResourceCell {
    /// Wraps `resource` in a fresh slot whose borrow tracker is free.
    ///
    /// Relies on `atomic_refcell::AtomicRefCell::new`: the new cell holds
    /// exactly the boxed value, with a zero borrow count.
    #[verifier::external_body]
    pub fn new<T: Resource>(resource: T) -> ResourceCell {
        ResourceCell { inner: AtomicRefCell::new(Box::new(resource)) }
    }

    /// Consumes the slot and returns the stored value, if it is a `T`.
    ///
    /// Relies on `atomic_refcell::AtomicRefCell::into_inner` (returns the
    /// wrapped value; owning the cell means no borrow of it can be live) and
    /// on `Box::downcast` (returns the boxed value exactly when its runtime
    /// type is `T`).
    #[verifier::external_body]
    pub fn into_inner<T: Resource>(self) -> Option<T> {
        let erased: Box<dyn Any + Send + Sync> = self.inner.into_inner();
        match erased.downcast::<T>() {
            Ok(value) => Some(*value),
            Err(_) => None,
        }
    }

    /// Requests a shared guard over the stored value, expected to be a `T`.
    ///
    /// Relies on `atomic_refcell::AtomicRefCell::try_borrow` (fails exactly
    /// while an exclusive borrow of this slot is live, without waiting) and
    /// on `AtomicRef::filter_map` with `<dyn Any>::downcast_ref` (succeeds
    /// exactly when the stored value's runtime type is `T`). A slot is
    /// reached under the key of `T`, so a value of another type here means
    /// that no `T` is stored.
    #[verifier::external_body]
    pub fn try_borrow<'a, T: Resource>(&'a self) -> (r: Result<Ref<'a, T>, AccessError>)
        ensures
            r matches Err(e) ==> (e == AccessError::AlreadyBorrowed || e
                == AccessError::NoSuchResource),
    {
        match self.inner.try_borrow() {
            Ok(erased) => match AtomicRef::filter_map(erased, |v| v.downcast_ref::<T>()) {
                Some(inner) => Ok(Ref { inner }),
                None => Err(AccessError::NoSuchResource),
            },
            Err(_) => Err(AccessError::AlreadyBorrowed),
        }
    }

    /// Requests an exclusive guard over the stored value, expected to be a
    /// `T`.
    ///
    /// Relies on `atomic_refcell::AtomicRefCell::try_borrow_mut` (fails
    /// exactly while any borrow of this slot is live, without waiting) and on
    /// `AtomicRefMut::filter_map` with `<dyn Any>::downcast_mut` (succeeds
    /// exactly when the stored value's runtime type is `T`). A slot is
    /// reached under the key of `T`, so a value of another type here means
    /// that no `T` is stored.
    #[verifier::external_body]
    pub fn try_borrow_mut<'a, T: Resource>(&'a self) -> (r: Result<RefMut<'a, T>, AccessError>)
        ensures
            r matches Err(e) ==> (e == AccessError::AlreadyBorrowed || e
                == AccessError::NoSuchResource),
    {
        match self.inner.try_borrow_mut() {
            Ok(erased) => match AtomicRefMut::filter_map(erased, |v| v.downcast_mut::<T>()) {
                Some(inner) => Ok(RefMut { inner }),
                None => Err(AccessError::NoSuchResource),
            },
            Err(_) => Err(AccessError::AlreadyBorrowed),
        }
    }
}

/// The key under which values of type `T` are stored: a 64-bit digest of
/// `T`'s process-unique type identity.
///
/// Relies on `core::any::TypeId::of` (a process-unique identity per concrete
/// type) hashed with `std::collections::hash_map::DefaultHasher` from its
/// fixed default state, so that every call for one `T` in one process
/// returns the same key. Distinct types have distinct identities; should two
/// of them ever share a 64-bit digest, a slot counts as holding only the
/// type whose downcast succeeds.
#[verifier::external_body]
pub(crate) fn type_key<T: Resource>() -> u64 {
    let mut hasher = std::collections::hash_map::DefaultHasher::new();
    core::any::TypeId::of::<T>().hash(&mut hasher);
    hasher.finish()
}

/// A shared guard over a stored `T`.
///
/// While the guard is alive, the slot's tracker counts one shared borrow;
/// dropping the guard releases it. The guard borrows the slot it came from,
/// so it cannot outlive the store.
#[derive(Debug)]
#[verifier::reject_recursive_types(T)]
pub struct Ref<'a, T: Resource> {
    inner: AtomicRef<'a, T>,
}

impl<'a, T: Resource> Ref<'a, T> {
    /// Read access to the guarded value.
    ///
    /// Relies on `AtomicRef`'s `Deref`: the reference leads to the value the
    /// guard was granted over.
    #[verifier::external_body]
    pub fn value(&self) -> &T {
        &self.inner
    }
}

/// An exclusive guard over a stored `T`.
///
/// While the guard is alive, the slot's tracker holds the single exclusive
/// borrow; dropping the guard releases it. The guard borrows the slot it
/// came from, so it cannot outlive the store.
#[derive(Debug)]
#[verifier::reject_recursive_types(T)]
pub struct RefMut<'a, T: Resource> {
    inner: AtomicRefMut<'a, T>,
}

impl<'a, T: Resource> RefMut<'a, T> {
    /// Read access to the guarded value.
    ///
    /// Relies on `AtomicRefMut`'s `Deref`: the reference leads to the value
    /// the guard was granted over.
    #[verifier::external_body]
    pub fn value(&self) -> &T {
        &self.inner
    }

    /// Write access to the guarded value.
    ///
    /// Relies on `AtomicRefMut`'s `DerefMut`: the reference leads to the
    /// value the guard was granted over, which it may overwrite in place.
    #[verifier::external_body]
    pub fn value_mut(&mut self) -> &mut T {
        &mut self.inner
    }
}

} // verus!
