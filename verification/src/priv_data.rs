//! `PrivData` — the per-library private data the BEAM hands back via
//! `enif_priv_data` — and the build-private resource-type registry it holds.
//!
//! Hot code upgrade loads a second build of a NIF library beside the first.
//! The only fields one build may read from another build's `PrivData` are the
//! two in the frozen header: `magic` and `user_priv_data`. Everything after the
//! header (the resource-type registry) is build-private: each build constructs
//! its own and drops it in its own `unload`.
use vstd::prelude::*;

use std::collections::HashMap;
use std::hash::Hash;
use vstd::std_specs::hash::obeys_key_model;

verus! {

broadcast use vstd::std_specs::hash::group_hash_axioms;

/// Layout-version tag for the frozen header: the bytes `RUSTNIF1` read as a
/// big-endian `u64`. Bumped only if the two header fields ever change.
pub const PRIV_MAGIC: u64 = 0x5255_5354_4E49_4631;

/// Maps each registered resource type (by its type key) to its BEAM-side
/// resource-type handle. Build-private; reconstructed fresh by every build.
pub struct ResourceRegistry<K, V> {
    types: HashMap<K, V>,
}

impl<K, V> View for ResourceRegistry<K, V> {
    type V = Map<K, V>;

    closed spec fn view(&self) -> Map<K, V> {
        self.types@
    }
}

impl<K: Eq + Hash, V: Copy> ResourceRegistry<K, V> {
    /// An empty registry.
    pub fn new() -> (r: ResourceRegistry<K, V>)
        ensures
            r@ == Map::<K, V>::empty(),
    {
        ResourceRegistry { types: HashMap::new() }
    }

    /// Record the resource-type handle for the type keyed by `key`.
    /// Registration happens exactly once per type, so `key` must not be
    /// registered yet.
    pub fn insert(&mut self, key: K, handle: V)
        requires
            obeys_key_model::<K>(),
            !old(self)@.contains_key(key),
        ensures
            final(self)@ == old(self)@.insert(key, handle),
    {
        let prev = self.types.insert(key, handle);
        assert(prev is None);
    }

    /// Whether the type keyed by `key` has been registered.
    pub fn contains(&self, key: &K) -> (r: bool)
        requires
            obeys_key_model::<K>(),
        ensures
            r == self@.contains_key(*key),
    {
        self.types.contains_key(key)
    }

    /// The resource-type handle registered for `key`, if any.
    pub fn get(&self, key: &K) -> (r: Option<V>)
        requires
            obeys_key_model::<K>(),
        ensures
            r == (if self@.contains_key(*key) {
                Some(self@[*key])
            } else {
                None::<V>
            }),
    {
        match self.types.get(key) {
            Some(handle) => Some(*handle),
            None => None,
        }
    }
}

/// A lookup after a registration finds the handle just registered, and every
/// other type keeps the handle it had.
pub proof fn lemma_registry_lookup_after_insert<K, V>(
    before: Map<K, V>,
    key: K,
    handle: V,
    other: K,
)
    requires
        !before.contains_key(key),
        other != key,
    ensures
        before.insert(key, handle).contains_key(key),
        before.insert(key, handle)[key] == handle,
        before.insert(key, handle).contains_key(other) == before.contains_key(other),
        before.contains_key(other) ==> before.insert(key, handle)[other] == before[other],
{
}

/// Library-private data owned by the library for the lifetime of one build.
///
/// The first two fields form the frozen cross-build header; the registry is
/// build-private and never read across the upgrade boundary.
pub struct PrivData<K, V> {
    /// Always [`PRIV_MAGIC`]. Read cross-build to confirm the header layout.
    magic: u64,
    /// The user's own private data, as an address (`0` is null). Always null
    /// unless the user supplies one.
    user_priv_data: usize,
    /// Resource types registered by this build.
    registry: ResourceRegistry<K, V>,
}

impl<K: Eq + Hash, V: Copy> PrivData<K, V> {
    /// The header's layout tag.
    pub closed spec fn spec_magic(&self) -> u64 {
        self.magic
    }

    /// The user's private data address.
    pub closed spec fn spec_user_priv_data(&self) -> usize {
        self.user_priv_data
    }

    /// The registered resource types.
    pub closed spec fn spec_registry(&self) -> Map<K, V> {
        self.registry@
    }

    /// A freshly initialized `PrivData`: the header tag, no user pointer, and
    /// an empty registry.
    pub fn new() -> (r: PrivData<K, V>)
        ensures
            r.spec_magic() == PRIV_MAGIC,
            r.spec_user_priv_data() == 0,
            r.spec_registry() == Map::<K, V>::empty(),
    {
        PrivData { magic: PRIV_MAGIC, user_priv_data: 0, registry: ResourceRegistry::new() }
    }

    /// The header's layout tag.
    pub fn magic(&self) -> (r: u64)
        ensures
            r == self.spec_magic(),
    {
        self.magic
    }

    /// The user's private data address (`0` when none).
    pub fn user_priv_data(&self) -> (r: usize)
        ensures
            r == self.spec_user_priv_data(),
    {
        self.user_priv_data
    }

    /// The resource-type registry of this build.
    pub fn registry(&self) -> (r: &ResourceRegistry<K, V>)
        ensures
            r@ == self.spec_registry(),
    {
        &self.registry
    }

    /// Register a resource type in this build's registry (the mutable access
    /// the load scaffolding uses). The header is left untouched.
    pub fn register(&mut self, key: K, handle: V)
        requires
            obeys_key_model::<K>(),
            !old(self).spec_registry().contains_key(key),
        ensures
            final(self).spec_registry() == old(self).spec_registry().insert(key, handle),
            final(self).spec_magic() == old(self).spec_magic(),
            final(self).spec_user_priv_data() == old(self).spec_user_priv_data(),
    {
        self.registry.insert(key, handle);
    }
}

} // verus!
