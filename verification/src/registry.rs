//! Registries of the engine's Vulkan objects: every object lives in a slot
//! map under a key of its own and keeps the keys of the objects it was made
//! from, which are registered when it is.

use slotmap::{DefaultKey, SlotMap};
use vstd::prelude::*;

verus! {

/// What a registry keeps of one object: its raw Vulkan handle and the keys
/// of the objects it was created from.
#[derive(Debug, Clone, Copy, PartialEq, Eq, Structural)]
pub struct ObjectRecord {
    pub handle: u64,
    pub parent: Option<u64>,
    pub second_parent: Option<u64>,
}

/// A slot map of records, keyed by `slotmap::DefaultKey`.
#[verifier::external_body]
pub struct ObjectSlots {
    map: SlotMap<DefaultKey, ObjectRecord>,
}

/// The records of a slot map, by the 64-bit form of their keys
/// (`KeyData::as_ffi`).
pub uninterp spec fn slot_contents(slots: ObjectSlots) -> Map<u64, ObjectRecord>;

/// The 64 bits of a key that a slot map hands out: its upper half, the
/// slot's version, is odd.
pub open spec fn is_issued_key(key: u64) -> bool {
    (key / 0x1_0000_0000) % 2 == 1
}

/// The key that the slot map reads from 64 bits: the upper half is made odd.
pub open spec fn normalized_key(key: u64) -> u64 {
    if is_issued_key(key) {
        key
    } else {
        (key + 0x1_0000_0000) as u64
    }
}

/// The record stored under `key`, if any.
pub open spec fn lookup_spec(contents: Map<u64, ObjectRecord>, key: u64) -> Option<ObjectRecord> {
    let k = normalized_key(key);
    if contents.dom().contains(k) {
        Some(contents[k])
    } else {
        None
    }
}

/// `SlotMap::new`: an empty map.
#[verifier::external_body]
fn slots_new() -> (slots: ObjectSlots)
    ensures
        slot_contents(slots).dom() == Set::<u64>::empty(),
{
    ObjectSlots { map: SlotMap::new() }
}

/// `SlotMap::insert`: stores the record under a key that no record held
/// before, whose version is odd, and gives back that key in its 64-bit form.
/// The map panics only when it is full, near 2^32 records.
#[verifier::external_body]
fn slots_insert(slots: &mut ObjectSlots, record: ObjectRecord) -> (key: u64)
    requires
        slot_contents(*old(slots)).dom().finite(),
        slot_contents(*old(slots)).len() + 2 < 0x1_0000_0000,
    ensures
        is_issued_key(key),
        !slot_contents(*old(slots)).dom().contains(key),
        slot_contents(*final(slots)) == slot_contents(*old(slots)).insert(key, record),
{
    slotmap::Key::data(&slots.map.insert(record)).as_ffi()
}

/// `SlotMap::get` on the key read back from 64 bits (`KeyData::from_ffi`).
#[verifier::external_body]
fn slots_get(slots: &ObjectSlots, key: u64) -> (found: Option<ObjectRecord>)
    ensures
        found == lookup_spec(slot_contents(*slots), key),
{
    slots.map.get(slotmap::KeyData::from_ffi(key).into()).copied()
}

/// `SlotMap::remove` on the key read back from 64 bits: takes the record
/// out if one is stored there.
#[verifier::external_body]
fn slots_remove(slots: &mut ObjectSlots, key: u64) -> (removed: Option<ObjectRecord>)
    ensures
        removed == lookup_spec(slot_contents(*old(slots)), key),
        slot_contents(*final(slots)) == slot_contents(*old(slots)).remove(normalized_key(key)),
{
    slots.map.remove(slotmap::KeyData::from_ffi(key).into())
}

/// `SlotMap::len`: the number of records stored.
#[verifier::external_body]
fn slots_len(slots: &ObjectSlots) -> (count: usize)
    ensures
        count == slot_contents(*slots).len(),
{
    slots.map.len()
}

/// The registry of one kind of object.
pub struct ObjectRegistry {
    slots: ObjectSlots,
}

impl View for ObjectRegistry {
    type V = Map<u64, ObjectRecord>;

    closed spec fn view(&self) -> Map<u64, ObjectRecord> {
        slot_contents(self.slots)
    }
}

/// A registry whose keys were all handed out by its slot map.
pub open spec fn registry_wf(contents: Map<u64, ObjectRecord>) -> bool {
    &&& contents.dom().finite()
    &&& forall|k: u64| #[trigger] contents.dom().contains(k) ==> is_issued_key(k)
}

/// Whether `key` names an object of the registry.
pub open spec fn is_registered(contents: Map<u64, ObjectRecord>, key: u64) -> bool {
    lookup_spec(contents, key) is Some
}

/// Whether every parent that a record names is registered in the registry
/// of its kind.
pub open spec fn parents_registered(
    record: ObjectRecord,
    parents: Map<u64, ObjectRecord>,
    second_parents: Map<u64, ObjectRecord>,
) -> bool {
    &&& (record.parent matches Some(p) ==> is_registered(parents, p))
    &&& (record.second_parent matches Some(p) ==> is_registered(second_parents, p))
}

impl ObjectRegistry {
    /// An empty registry.
    pub fn new() -> (registry: Self)
        ensures
            registry@ == Map::<u64, ObjectRecord>::empty(),
            registry_wf(registry@),
    {
        let registry = ObjectRegistry { slots: slots_new() };
        assert(registry@ =~= Map::<u64, ObjectRecord>::empty());
        registry
    }

    /// Stores the record of a newly created object and returns its key.
    pub fn register(&mut self, record: ObjectRecord) -> (key: u64)
        requires
            registry_wf(old(self)@),
            old(self)@.len() + 2 < 0x1_0000_0000,
        ensures
            registry_wf(final(self)@),
            is_issued_key(key),
            !old(self)@.dom().contains(key),
            final(self)@ == old(self)@.insert(key, record),
    {
        let key = slots_insert(&mut self.slots, record);
        proof {
            assert forall|k: u64| #[trigger] self@.dom().contains(k) implies is_issued_key(k) by {
                if k != key {
                    assert(old(self)@.dom().contains(k));
                }
            }
        }
        key
    }

    /// The number of registered objects.
    pub fn len(&self) -> (count: usize)
        ensures
            count == self@.len(),
    {
        slots_len(&self.slots)
    }

    /// The record stored under `key`, if the object is registered.
    pub fn lookup(&self, key: u64) -> (found: Option<ObjectRecord>)
        ensures
            found == lookup_spec(self@, key),
    {
        slots_get(&self.slots, key)
    }

    /// Whether an object is registered under `key`.
    pub fn contains(&self, key: u64) -> (present: bool)
        ensures
            present == is_registered(self@, key),
    {
        self.lookup(key).is_some()
    }

    /// The key of the object that the object under `key` was created from.
    pub fn parent_of(&self, key: u64) -> (parent: Option<u64>)
        ensures
            parent == (match lookup_spec(self@, key) {
                Some(record) => record.parent,
                None => None,
            }),
    {
        match self.lookup(key) {
            Some(record) => record.parent,
            None => None,
        }
    }

    /// Takes the object under `key` out of the registry and returns its
    /// record, if it was registered.
    pub fn unregister(&mut self, key: u64) -> (removed: Option<ObjectRecord>)
        requires
            registry_wf(old(self)@),
        ensures
            registry_wf(final(self)@),
            removed == lookup_spec(old(self)@, key),
            final(self)@ == old(self)@.remove(normalized_key(key)),
    {
        slots_remove(&mut self.slots, key)
    }
}

/// Registers an object created from the objects named in `record`, as the
/// engine does after it made the Vulkan object: each named parent must be
/// registered in the registry of its kind (the engine stops with "not
/// found" otherwise).
pub fn register_child(
    registry: &mut ObjectRegistry,
    parents: &ObjectRegistry,
    second_parents: &ObjectRegistry,
    record: ObjectRecord,
) -> (key: u64)
    requires
        registry_wf(old(registry)@),
        old(registry)@.len() + 2 < 0x1_0000_0000,
        parents_registered(record, parents@, second_parents@),
    ensures
        registry_wf(final(registry)@),
        is_issued_key(key),
        !old(registry)@.dom().contains(key),
        final(registry)@ == old(registry)@.insert(key, record),
        lookup_spec(final(registry)@, key) == Some(record),
{
    registry.register(record)
}

/// Registers an object like `register_child`, after checking that the
/// parents it names are registered: `None`, with the registry unchanged,
/// where one is not.
pub fn try_register_child(
    registry: &mut ObjectRegistry,
    parents: &ObjectRegistry,
    second_parents: &ObjectRegistry,
    record: ObjectRecord,
) -> (key: Option<u64>)
    requires
        registry_wf(old(registry)@),
        old(registry)@.len() + 2 < 0x1_0000_0000,
    ensures
        registry_wf(final(registry)@),
        key is None <==> !parents_registered(record, parents@, second_parents@),
        key is None ==> final(registry)@ == old(registry)@,
        key matches Some(k) ==> {
            &&& !old(registry)@.dom().contains(k)
            &&& final(registry)@ == old(registry)@.insert(k, record)
        },
{
    let first_ok = match record.parent {
        Some(p) => parents.contains(p),
        None => true,
    };
    let second_ok = match record.second_parent {
        Some(p) => second_parents.contains(p),
        None => true,
    };
    if first_ok && second_ok {
        Some(register_child(registry, parents, second_parents, record))
    } else {
        None
    }
}

/// What is registered is read back: right after `register` returned `key`,
/// `lookup(key)` gives the stored record, and every other key reads as
/// before.
pub proof fn lemma_lookup_after_register(
    contents: Map<u64, ObjectRecord>,
    key: u64,
    record: ObjectRecord,
    other: u64,
)
    requires
        registry_wf(contents),
        is_issued_key(key),
        !contents.dom().contains(key),
        normalized_key(other) != key,
    ensures
        lookup_spec(contents.insert(key, record), key) == Some(record),
        lookup_spec(contents.insert(key, record), other) == lookup_spec(contents, other),
{
}

/// A key handed out by `register` is not one of a registered object: two
/// registered objects never share a key.
pub proof fn lemma_register_gives_fresh_key(contents: Map<u64, ObjectRecord>, key: u64, existing: u64)
    requires
        registry_wf(contents),
        !contents.dom().contains(key),
        is_registered(contents, existing),
    ensures
        normalized_key(existing) != key,
{
}

/// After `unregister(key)` the object is gone: `lookup(key)` gives `None`,
/// and every other key reads as before.
pub proof fn lemma_lookup_after_unregister(contents: Map<u64, ObjectRecord>, key: u64, other: u64)
    requires
        registry_wf(contents),
        normalized_key(other) != normalized_key(key),
    ensures
        lookup_spec(contents.remove(normalized_key(key)), key) is None,
        lookup_spec(contents.remove(normalized_key(key)), other) == lookup_spec(contents, other),
{
}

/// An object stored in a registry under a key of its own.
///
/// The registry itself, a global map from keys to objects behind a lock,
/// belongs to the code that creates the objects.
pub trait SlotMappable: Sized {
    type Key;

    /// Key under which this object is stored.
    fn key(&self) -> Self::Key;
}

/// An object created from another one, its parent, whose key it keeps.
pub trait HasParent<Parent: SlotMappable>: SlotMappable {
    /// Key of this object's parent.
    fn parent_key(&self) -> Parent::Key;
}

} // verus!
