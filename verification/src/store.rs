use vstd::prelude::*;

use vstd::hash_map::HashMapWithView;

use crate::errors::AccessError;
use crate::resource::Ref;
use crate::resource::RefMut;
use crate::resource::Resource;
use crate::resource::ResourceCell;
use crate::resource::type_key;

verus! {

/// The raw store: a mapping from type-identity key to slot, with unique keys
/// and no ordering.
///
/// The raw store itself is not aware of which thread touches it. Its
/// operations carry a caller obligation: they must be invoked only by a
/// party that owns this store or has been granted access to it — the
/// single-thread [`Resources`] container, or a [`ResourcesSync`] handle,
/// whose slots tolerate concurrent access because their borrow trackers are
/// atomic. Callers are also expected to pass, for a value type `T`, the key
/// under which `T`'s slots are filed; the façades do.
pub struct RawStore {
    cells: HashMapWithView<u64, ResourceCell>,
}

impl View for RawStore {
    type V = Map<u64, ResourceCell>;

    closed spec fn view(&self) -> Map<u64, ResourceCell> {
        self.cells@
    }
}

impl RawStore {
    /// Creates an empty store.
    pub fn new() -> (s: RawStore)
        ensures
            s@ == Map::<u64, ResourceCell>::empty(),
    {
        RawStore { cells: HashMapWithView::new() }
    }

    /// Files `cell` under `key`, discarding any slot already there. No
    /// borrow state carries over: the new slot arrives with its own free
    /// tracker.
    pub fn insert(&mut self, key: u64, cell: ResourceCell)
        ensures
            final(self)@ == old(self)@.insert(key, cell),
    {
        self.cells.insert(key, cell);
    }

    /// Takes the slot filed under `key` out of the store and returns it,
    /// or returns `None`, leaving the store unchanged, if there is none.
    pub fn remove(&mut self, key: u64) -> (r: Option<ResourceCell>)
        ensures
            final(self)@ == old(self)@.remove(key),
            r matches Some(cell) ==> old(self)@.contains_key(key) && cell == old(self)@[key],
            r is None <==> !old(self)@.contains_key(key),
    {
        let r = self.cells.remove(&key);
        proof {
            if !old(self)@.contains_key(key) {
                assert(old(self)@.remove(key) =~= old(self)@);
            }
        }
        r
    }

    /// Requests a shared guard over the value of type `T` filed under `key`.
    ///
    /// Fails with `NoSuchResource` when no slot is filed under `key` (and,
    /// by the slot's own account, when the slot holds no `T`), and with
    /// `AlreadyBorrowed` when the slot's tracker refuses the borrow. The
    /// store itself is left untouched either way.
    pub fn try_borrow<'a, T: Resource>(&'a self, key: u64) -> (r: Result<Ref<'a, T>, AccessError>)
        ensures
            !self@.contains_key(key) ==> (r matches Err(e) && e == AccessError::NoSuchResource),
            r matches Err(e) ==> (e == AccessError::NoSuchResource || e
                == AccessError::AlreadyBorrowed),
    {
        match self.cells.get(&key) {
            Some(cell) => cell.try_borrow::<T>(),
            None => Err(AccessError::NoSuchResource),
        }
    }

    /// Requests an exclusive guard over the value of type `T` filed under
    /// `key`.
    ///
    /// Fails with `NoSuchResource` when no slot is filed under `key` (and,
    /// by the slot's own account, when the slot holds no `T`), and with
    /// `AlreadyBorrowed` when the slot's tracker refuses the borrow. The
    /// store itself is left untouched either way.
    pub fn try_borrow_mut<'a, T: Resource>(&'a self, key: u64) -> (r: Result<
        RefMut<'a, T>,
        AccessError,
    >)
        ensures
            !self@.contains_key(key) ==> (r matches Err(e) && e == AccessError::NoSuchResource),
            r matches Err(e) ==> (e == AccessError::NoSuchResource || e
                == AccessError::AlreadyBorrowed),
    {
        match self.cells.get(&key) {
            Some(cell) => cell.try_borrow_mut::<T>(),
            None => Err(AccessError::NoSuchResource),
        }
    }
}

/// A container of shared resources, confined to a single thread.
///
/// The container holds at most one value of each stored type, filed under
/// the type's identity. Access goes through guards whose admission a
/// per-slot borrow tracker decides; see the crate root for the discipline.
pub struct Resources {
    raw: RawStore,
}

impl View for Resources {
    type V = Map<u64, ResourceCell>;

    closed spec fn view(&self) -> Map<u64, ResourceCell> {
        self.raw@
    }
}

impl Resources {
    /// Creates an empty container.
    pub fn new() -> (r: Resources)
        ensures
            r@ == Map::<u64, ResourceCell>::empty(),
    {
        Resources { raw: RawStore::new() }
    }

    /// Inserts a resource of type `T` into the container.
    ///
    /// Exactly one slot — the one filed under `T`'s key — is written: it
    /// holds the new value in a fresh slot with a free borrow tracker. If an
    /// instance of `T` was already stored, it is quietly discarded, not
    /// returned; call [`Resources::remove()`] first to retrieve it.
    pub fn insert<T: Resource>(&mut self, resource: T)
        ensures
            exists|key: u64, cell: ResourceCell| final(self)@ == old(self)@.insert(key, cell),
    {
        let key: u64 = type_key::<T>();
        let cell = ResourceCell::new(resource);
        let ghost gcell = cell;
        self.raw.insert(key, cell);
        proof {
            assert(self@ == old(self)@.insert(key, gcell));
        }
    }

    /// Removes the instance of type `T` from the container and returns it,
    /// if one is stored; at most the slot filed under `T`'s key leaves the
    /// container. On an empty container nothing changes and `None` comes
    /// back.
    pub fn remove<T: Resource>(&mut self) -> (r: Option<T>)
        ensures
            exists|key: u64| final(self)@ == old(self)@.remove(key),
            old(self)@ == Map::<u64, ResourceCell>::empty() ==> (r is None && final(self)@ == old(
                self,
            )@),
    {
        let key: u64 = type_key::<T>();
        let cell = self.raw.remove(key);
        proof {
            if old(self)@ == Map::<u64, ResourceCell>::empty() {
                assert(old(self)@.remove(key) =~= old(self)@);
            }
        }
        match cell {
            Some(cell) => cell.into_inner::<T>(),
            None => None,
        }
    }

    /// Returns a shared guard over the stored `T`, if it exists and no
    /// exclusive borrow of it is outstanding.
    ///
    /// On an empty container the answer is always `NoSuchResource`. Every
    /// failure is one of the two error kinds, reported at once: nothing
    /// blocks, waits, or retries.
    pub fn get<'a, T: Resource>(&'a self) -> (r: Result<Ref<'a, T>, AccessError>)
        ensures
            self@ == Map::<u64, ResourceCell>::empty() ==> (r matches Err(e) && e
                == AccessError::NoSuchResource),
            r matches Err(e) ==> (e == AccessError::NoSuchResource || e
                == AccessError::AlreadyBorrowed),
    {
        let key: u64 = type_key::<T>();
        self.raw.try_borrow::<T>(key)
    }

    /// Returns an exclusive guard over the stored `T`, if it exists and no
    /// borrow of it at all is outstanding.
    ///
    /// On an empty container the answer is always `NoSuchResource`. Every
    /// failure is one of the two error kinds, reported at once: nothing
    /// blocks, waits, or retries.
    pub fn get_mut<'a, T: Resource>(&'a self) -> (r: Result<RefMut<'a, T>, AccessError>)
        ensures
            self@ == Map::<u64, ResourceCell>::empty() ==> (r matches Err(e) && e
                == AccessError::NoSuchResource),
            r matches Err(e) ==> (e == AccessError::NoSuchResource || e
                == AccessError::AlreadyBorrowed),
    {
        let key: u64 = type_key::<T>();
        self.raw.try_borrow_mut::<T>(key)
    }

    /// Derives a thread-transferable handle over this container's store.
    ///
    /// The handle borrows the container for its whole lifetime, so the
    /// container cannot be touched directly — in particular, no slot can be
    /// inserted or removed — until every handle is gone; a handle can never
    /// outlive the container.
    pub fn sync<'a>(&'a mut self) -> (handle: ResourcesSync<'a>)
        ensures
            handle@ == old(self)@,
            *final(self) == *old(self),
    {
        ResourcesSync { raw: &self.raw }
    }
}

impl Default for Resources {
    /// Creates an empty container.
    fn default() -> (r: Resources)
        ensures
            r@ == Map::<u64, ResourceCell>::empty(),
    {
        Resources::new()
    }
}

/// A thread-transferable handle to a [`Resources`] container.
///
/// The handle holds a borrow of the container's store, and may itself be
/// sent to, and shared between, other threads: every stored type is
/// thread-safe (see [`Resource`]), and each slot's borrow tracker is an
/// atomic count, so concurrent requests from different threads observe one
/// consistent interleaving — for one slot, no two exclusive grants, and no
/// exclusive grant beside a shared one, are ever outstanding together.
/// Requests on different slots are fully independent.
pub struct ResourcesSync<'a> {
    raw: &'a RawStore,
}

impl<'a> View for ResourcesSync<'a> {
    type V = Map<u64, ResourceCell>;

    closed spec fn view(&self) -> Map<u64, ResourceCell> {
        (*self.raw)@
    }
}

impl<'a> ResourcesSync<'a> {
    /// Returns a shared guard over the stored `T`, if it exists and no
    /// exclusive borrow of it is outstanding.
    ///
    /// On a handle over an empty store the answer is always
    /// `NoSuchResource`. Every failure is one of the two error kinds,
    /// reported at once: nothing blocks, waits, or retries.
    pub fn get<T: Resource>(&self) -> (r: Result<Ref<'a, T>, AccessError>)
        ensures
            self@ == Map::<u64, ResourceCell>::empty() ==> (r matches Err(e) && e
                == AccessError::NoSuchResource),
            r matches Err(e) ==> (e == AccessError::NoSuchResource || e
                == AccessError::AlreadyBorrowed),
    {
        let key: u64 = type_key::<T>();
        self.raw.try_borrow::<T>(key)
    }

    /// Returns an exclusive guard over the stored `T`, if it exists and no
    /// borrow of it at all is outstanding.
    ///
    /// On a handle over an empty store the answer is always
    /// `NoSuchResource`. Every failure is one of the two error kinds,
    /// reported at once: nothing blocks, waits, or retries.
    pub fn get_mut<T: Resource>(&self) -> (r: Result<RefMut<'a, T>, AccessError>)
        ensures
            self@ == Map::<u64, ResourceCell>::empty() ==> (r matches Err(e) && e
                == AccessError::NoSuchResource),
            r matches Err(e) ==> (e == AccessError::NoSuchResource || e
                == AccessError::AlreadyBorrowed),
    {
        let key: u64 = type_key::<T>();
        self.raw.try_borrow_mut::<T>(key)
    }
}

/// At most one instance per type: filing a second slot under a key keeps
/// only the second one — the store after both inserts is the store after the
/// second alone, and that is the slot the key then leads to.
pub proof fn lemma_insert_replaces(
    m: Map<u64, ResourceCell>,
    key: u64,
    first: ResourceCell,
    second: ResourceCell,
)
    ensures
        m.insert(key, first).insert(key, second) == m.insert(key, second),
        m.insert(key, second)[key] == second,
        m.insert(key, second).contains_key(key),
{
    assert(m.insert(key, first).insert(key, second) =~= m.insert(key, second));
}

/// Slots are independent across types: filing or removing the slot under
/// one key neither adds, removes, nor exchanges the slot under any other
/// key.
pub proof fn lemma_slot_independence(
    m: Map<u64, ResourceCell>,
    key: u64,
    other: u64,
    cell: ResourceCell,
)
    requires
        key != other,
    ensures
        m.insert(key, cell).contains_key(other) == m.contains_key(other),
        m.contains_key(other) ==> m.insert(key, cell)[other] == m[other],
        m.remove(key).contains_key(other) == m.contains_key(other),
        m.contains_key(other) ==> m.remove(key)[other] == m[other],
{
}

} // verus!
