//! The in-memory keeper registry: a mapping from keeper id to record that is
//! read concurrently and replaced wholesale, never merged or patched in
//! place.

use vstd::prelude::*;
use vstd::rwlock::RwLock;

use crate::remote::Keeper;
use crate::remote::Keepers;

verus! {

broadcast use vstd::std_specs::hash::group_hash_axioms;

/// The registry contents: every reader of a `Registry` value sees one
/// complete snapshot, because the only write is [`Registry::replace`], which
/// substitutes the whole mapping at once.
pub struct Registry {
    records: Keepers,
}

impl Registry {
    /// The mapping the registry currently holds.
    pub closed spec fn view(&self) -> Map<u32, Keeper> {
        self.records@
    }

    /// A registry starts empty: before the first successful refresh there
    /// are no known keepers.
    pub fn new() -> (registry: Registry)
        ensures
            registry@ == Map::<u32, Keeper>::empty(),
    {
        Registry { records: std::collections::HashMap::new() }
    }

    /// A consistent, point-in-time view of the contents.
    pub fn read(&self) -> (records: &Keepers)
        ensures
            records@ == self@,
    {
        &self.records
    }

    /// Substitutes the entire contents; the old mapping is discarded, not
    /// merged with the new one.
    pub fn replace(&mut self, new_records: Keepers)
        ensures
            final(self)@ == new_records@,
    {
        self.records = new_records;
    }

    /// How many keepers are currently known.
    pub fn len(&self) -> (n: usize)
        ensures
            n == self@.len(),
    {
        self.records.len()
    }

    /// Whether a keeper with the given id is currently known.
    pub fn contains_id(&self, id: u32) -> (present: bool)
        ensures
            present == self@.contains_key(id),
    {
        self.records.contains_key(&id)
    }

    /// The username recorded for the given keeper id, if the id is known.
    pub fn username_of(&self, id: u32) -> (username: Option<&String>)
        ensures
            match username {
                Some(name) => self@.contains_key(id) && name == self@[id].username,
                None => !self@.contains_key(id),
            },
    {
        match self.records.get(&id) {
            Some(keeper) => Some(&keeper.username),
            None => None,
        }
    }
}

/// A read is atomic with respect to a replace: whatever a reader observes is
/// the pre-replace mapping or the post-replace mapping as a whole, so an id
/// present only in the old mapping and an id present only in the new mapping
/// are never seen together.
pub proof fn lemma_read_observes_no_mix(
    observed: Map<u32, Keeper>,
    old_records: Map<u32, Keeper>,
    new_records: Map<u32, Keeper>,
    old_only_id: u32,
    new_only_id: u32,
)
    requires
        observed == old_records || observed == new_records,
        old_records.contains_key(old_only_id),
        !new_records.contains_key(old_only_id),
        new_records.contains_key(new_only_id),
        !old_records.contains_key(new_only_id),
    ensures
        !(observed.contains_key(old_only_id) && observed.contains_key(new_only_id)),
{
}

/// Lock predicate for the shared registry: any complete registry value may
/// sit in the lock.
pub struct RegistryPred {}

impl vstd::rwlock::RwLockPredicate<Registry> for RegistryPred {
    open spec fn inv(self, registry: Registry) -> bool {
        true
    }
}

/// The registry as both the scheduler and the request handlers hold it: one
/// shared handle whose reader/writer lock admits any number of concurrent
/// reads but gives a replace exclusive access for its whole duration.
pub struct SharedRegistry {
    lock: RwLock<Registry, RegistryPred>,
}

impl SharedRegistry {
    /// Creates the shared handle around an empty registry.
    pub fn new() -> SharedRegistry {
        SharedRegistry { lock: RwLock::new(Registry::new(), Ghost(RegistryPred {})) }
    }

    /// Atomically substitutes the entire contents, excluding all readers for
    /// the duration of the swap.
    pub fn replace(&self, new_records: Keepers) {
        let (mut registry, write_handle) = self.lock.acquire_write();
        registry.replace(new_records);
        write_handle.release_write(registry);
    }

    /// How many keepers the current snapshot holds.
    pub fn len(&self) -> usize {
        let read_handle = self.lock.acquire_read();
        let n = read_handle.borrow().len();
        read_handle.release_read();
        n
    }

    /// Whether the current snapshot knows the given keeper id.
    pub fn contains_id(&self, id: u32) -> bool {
        let read_handle = self.lock.acquire_read();
        let present = read_handle.borrow().contains_id(id);
        read_handle.release_read();
        present
    }

    /// The username the current snapshot records for the given keeper id.
    pub fn username_of(&self, id: u32) -> Option<String> {
        let read_handle = self.lock.acquire_read();
        let username = match read_handle.borrow().username_of(id) {
            Some(name) => Some(name.clone()),
            None => None,
        };
        read_handle.release_read();
        username
    }
}

} // verus!
