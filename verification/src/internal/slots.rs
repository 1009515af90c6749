use vstd::prelude::*;
use crate::internal::hash::DefaultState;
use crate::internal::index::TABLE_LIMIT;

verus! {

/// Map from the position of an item to a slot, backed by a `hashbrown::HashMap`
/// with an `ahash` hasher.
#[verifier::external_body]
pub struct SlotIndex {
    table: hashbrown::HashMap<usize, usize, DefaultState>,
}

/// The entries of a `SlotIndex`: item position to slot.
pub uninterp spec fn slot_entries(index: SlotIndex) -> Map<usize, usize>;

impl SlotIndex {
    /// Creates an empty map (`hashbrown::HashMap::with_hasher`); it holds no entry.
    #[verifier::external_body]
    pub(crate) fn with_hasher(state: DefaultState) -> (r: SlotIndex)
        ensures
            slot_entries(r).dom() == Set::<usize>::empty(),
    {
        SlotIndex { table: hashbrown::HashMap::with_hasher(state) }
    }

    /// Looks up the slot of a position (`hashbrown::HashMap::get`): the entry's value
    /// when the position is present, `None` otherwise.
    #[verifier::external_body]
    pub(crate) fn get(&self, key: usize) -> (r: Option<usize>)
        ensures
            r == (if slot_entries(*self).contains_key(key) {
                Some(slot_entries(*self)[key])
            } else {
                None::<usize>
            }),
    {
        self.table.get(&key).copied()
    }

    /// Stores the slot of a position (`hashbrown::HashMap::insert`): afterwards the
    /// position maps to `slot` and every other entry is unchanged.
    #[verifier::external_body]
    pub(crate) fn insert(&mut self, key: usize, slot: usize) -> (r: Option<usize>)
        requires
            slot_entries(*old(self)).len() < TABLE_LIMIT,
        ensures
            slot_entries(*final(self)) == slot_entries(*old(self)).insert(key, slot),
            r == (if slot_entries(*old(self)).contains_key(key) {
                Some(slot_entries(*old(self))[key])
            } else {
                None::<usize>
            }),
    {
        self.table.insert(key, slot)
    }

    /// Removes the entry of a position (`hashbrown::HashMap::remove`), returning its
    /// slot if it was present; every other entry is unchanged.
    #[verifier::external_body]
    pub(crate) fn remove(&mut self, key: usize) -> (r: Option<usize>)
        ensures
            slot_entries(*final(self)) == slot_entries(*old(self)).remove(key),
            r == (if slot_entries(*old(self)).contains_key(key) {
                Some(slot_entries(*old(self))[key])
            } else {
                None::<usize>
            }),
    {
        self.table.remove(&key)
    }

    /// Removes every entry (`hashbrown::HashMap::clear`).
    #[verifier::external_body]
    pub(crate) fn clear(&mut self)
        ensures
            slot_entries(*final(self)).dom() == Set::<usize>::empty(),
    {
        self.table.clear()
    }
}

/// Set of item positions, backed by a `hashbrown::HashSet` with an `ahash` hasher.
#[verifier::external_body]
pub struct KeySet {
    set: hashbrown::HashSet<usize, DefaultState>,
}

/// The members of a `KeySet`.
pub uninterp spec fn set_members(set: KeySet) -> Set<usize>;

impl KeySet {
    /// Creates an empty set (`hashbrown::HashSet::with_hasher`).
    #[verifier::external_body]
    pub(crate) fn with_hasher(state: DefaultState) -> (r: KeySet)
        ensures
            set_members(r) == Set::<usize>::empty(),
    {
        KeySet { set: hashbrown::HashSet::with_hasher(state) }
    }

    /// Membership test (`hashbrown::HashSet::contains`).
    #[verifier::external_body]
    pub(crate) fn contains(&self, key: usize) -> (r: bool)
        ensures
            r == set_members(*self).contains(key),
    {
        self.set.contains(&key)
    }

    /// Adds a member (`hashbrown::HashSet::insert`); returns whether it was new.
    #[verifier::external_body]
    pub(crate) fn insert(&mut self, key: usize) -> (r: bool)
        requires
            set_members(*old(self)).len() < TABLE_LIMIT,
        ensures
            set_members(*final(self)) == set_members(*old(self)).insert(key),
            r == !set_members(*old(self)).contains(key),
    {
        self.set.insert(key)
    }

    /// Removes a member (`hashbrown::HashSet::remove`); returns whether it was present.
    #[verifier::external_body]
    pub(crate) fn remove(&mut self, key: usize) -> (r: bool)
        ensures
            set_members(*final(self)) == set_members(*old(self)).remove(key),
            r == set_members(*old(self)).contains(key),
    {
        self.set.remove(&key)
    }

    /// Removes every member (`hashbrown::HashSet::clear`).
    #[verifier::external_body]
    pub(crate) fn clear(&mut self)
        ensures
            set_members(*final(self)) == Set::<usize>::empty(),
    {
        self.set.clear()
    }
}

} // verus!
