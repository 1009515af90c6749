use vstd::prelude::*;
use std::marker::PhantomData;
use std::rc::Rc;
use crate::collection::any_ref::AnyRef;
use crate::collection::arena::Arena;
use crate::identity::SelfKeyed;
use crate::internal::hash::default_state;
use crate::internal::index::TABLE_LIMIT;
use crate::internal::slots::{self, KeySet, SlotIndex};
use crate::internal::token::{ArenaLink, ArenaToken};

verus! {

/// A secondary map that associates arena-allocated items with another value.
/// Items must be from the same arena.
///
/// The map keeps its arena alive, as an owner of it. Each item has a slot in
/// `values`; slots freed by `remove` are reused.
pub struct SecondaryMap<T: SelfKeyed, V> {
    arena: u64,
    token: Rc<ArenaToken>,
    link: Rc<ArenaLink>,
    slots: SlotIndex,
    values: Vec<Option<V>>,
    free: Vec<usize>,
    items: PhantomData<T>,
}

impl<T: SelfKeyed, V> View for SecondaryMap<T, V> {
    type V = Map<usize, V>;

    /// The value of each item that the map holds, by the item's position.
    closed spec fn view(&self) -> Map<usize, V> {
        Map::new(
            |k: usize| slots::slot_entries(self.slots).contains_key(k),
            |k: usize| self.values@[slots::slot_entries(self.slots)[k] as int].unwrap(),
        )
    }
}

impl<T: SelfKeyed, V> SecondaryMap<T, V> {
    /// Identifies the arena whose items the map holds.
    pub closed spec fn arena_id(&self) -> u64 {
        self.arena
    }

    /// What a lookup of the item at position `pos` of arena `arena` finds: the item's
    /// value when the map holds it, `None` otherwise.
    pub open spec fn lookup(&self, arena: u64, pos: usize) -> Option<V> {
        if arena == self.arena_id() && self@.contains_key(pos) {
            Some(self@[pos])
        } else {
            None
        }
    }

    /// The map's invariant: every held item has a slot of its own that holds its
    /// value; free slots are distinct and hold nothing.
    pub closed spec fn wf(&self) -> bool {
        let entries = slots::slot_entries(self.slots);
        &&& entries.dom().finite()
        &&& forall|k: usize| #[trigger]
            entries.contains_key(k) ==> entries[k] < self.values@.len()
                && self.values@[entries[k] as int] is Some
        &&& forall|a: usize, b: usize|
            #[trigger] entries.contains_key(a) && #[trigger] entries.contains_key(b) && a != b
                ==> entries[a] != entries[b]
        &&& forall|i: int|
            0 <= i < self.free@.len() ==> #[trigger] self.free@[i] < self.values@.len()
                && self.values@[self.free@[i] as int] is None
        &&& self.free@.no_duplicates()
    }

    /// Creates a new map for items from the specified `Arena`.
    pub fn new(arena: &Arena<T>) -> (r: Self)
        ensures
            r.wf(),
            r@ == Map::<usize, V>::empty(),
            r.arena_id() == arena.id(),
    {
        let (token, link) = arena.owner_handles();
        let r = SecondaryMap {
            arena: arena.arena_id(),
            token,
            link,
            slots: SlotIndex::with_hasher(default_state()),
            values: Vec::new(),
            free: Vec::new(),
            items: PhantomData,
        };
        assert(r@ =~= Map::<usize, V>::empty());
        r
    }

    /// Returns `true` if the map contains a value for the specified key.
    pub fn contains<K: AnyRef<T>>(&self, key: &K) -> (r: bool)
        requires
            self.wf(),
        ensures
            r == self.lookup(key.arena_id(), key.position()) is Some,
    {
        let p = key.as_ptr();
        if p.arena != self.arena {
            return false;
        }
        self.slots.get(p.index).is_some()
    }

    /// Returns a reference to the value corresponding to the key, if one exists.
    pub fn get<K: AnyRef<T>>(&self, key: &K) -> (r: Option<&V>)
        requires
            self.wf(),
        ensures
            r is Some == self.lookup(key.arena_id(), key.position()) is Some,
            r matches Some(v) ==> Some(*v) == self.lookup(key.arena_id(), key.position()),
    {
        let p = key.as_ptr();
        if p.arena != self.arena {
            return None;
        }
        match self.slots.get(p.index) {
            Some(s) => self.values[s].as_ref(),
            None => None,
        }
    }

    /// Inserts a key-value pair into the map.
    ///
    /// If the map did not have this key present, `None` is returned.
    ///
    /// If the map did have this key present, the value is updated, and the old value is returned.
    pub fn insert<K: AnyRef<T>>(&mut self, key: K, val: V) -> (r: Option<V>)
        requires
            old(self).wf(),
            key.arena_id() == old(self).arena_id(),
            old(self)@.len() < TABLE_LIMIT,
        ensures
            final(self).wf(),
            final(self).arena_id() == old(self).arena_id(),
            final(self)@ == old(self)@.insert(key.position(), val),
            old(self)@.contains_key(key.position()) ==> r == Some(old(self)@[key.position()]),
            !old(self)@.contains_key(key.position()) ==> r is None,
    {
        let p = key.as_ptr();
        let k: usize = p.index;
        let ghost old_entries = slots::slot_entries(self.slots);
        let ghost old_values = self.values@;
        proof {
            assert(self@.dom() =~= old_entries.dom());
        }
        match self.slots.get(k) {
            Some(s) => {
                let mut v = Some(val);
                self.values.set_and_swap(s, &mut v);
                proof {
                    let entries = slots::slot_entries(self.slots);
                    assert forall|j: usize| #[trigger] entries.contains_key(j) && j != k implies self.values@[entries[j] as int] == old_values[entries[j] as int] by {
                        assert(entries[j] != entries[k]);
                    }
                    assert forall|i: int| 0 <= i < self.free@.len() implies #[trigger] self.free@[i] < self.values@.len()
                        && self.values@[self.free@[i] as int] is None by {
                        assert(self.free@[i] != s);
                    }
                    assert(self@ =~= old(self)@.insert(k, val));
                }
                v
            },
            None => {
                let s: usize = match self.free.pop() {
                    Some(f) => {
                        self.values.set(f, Some(val));
                        f
                    },
                    None => {
                        let n: usize = self.values.len();
                        self.values.push(Some(val));
                        n
                    },
                };
                self.slots.insert(k, s);
                proof {
                    let entries = slots::slot_entries(self.slots);
                    assert forall|j: usize| #[trigger] old_entries.contains_key(j) implies old_entries[j] != s by {
                    }
                    assert forall|j: usize| #[trigger] entries.contains_key(j) && j != k implies self.values@[entries[j] as int] == old_values[entries[j] as int] by {
                        assert(old_entries.contains_key(j));
                    }
                    assert forall|i: int| 0 <= i < self.free@.len() implies #[trigger] self.free@[i] < self.values@.len()
                        && self.values@[self.free@[i] as int] is None by {
                        assert(self.free@[i] != s);
                    }
                    assert(self@ =~= old(self)@.insert(k, val));
                }
                None
            },
        }
    }

    /// Removes a key from the map, returning the value if one was previously in the map.
    pub fn remove<K: AnyRef<T>>(&mut self, key: &K) -> (r: Option<V>)
        requires
            old(self).wf(),
        ensures
            final(self).wf(),
            final(self).arena_id() == old(self).arena_id(),
            key.arena_id() == old(self).arena_id() ==> {
                &&& final(self)@ == old(self)@.remove(key.position())
                &&& old(self)@.contains_key(key.position()) ==> r == Some(old(self)@[key.position()])
                &&& !old(self)@.contains_key(key.position()) ==> r is None
            },
            key.arena_id() != old(self).arena_id() ==> final(self)@ == old(self)@ && r is None,
    {
        let p = key.as_ptr();
        if p.arena != self.arena {
            return None;
        }
        let k: usize = p.index;
        let ghost old_entries = slots::slot_entries(self.slots);
        let ghost old_values = self.values@;
        match self.slots.remove(k) {
            Some(s) => {
                let mut v: Option<V> = None;
                self.values.set_and_swap(s, &mut v);
                self.free.push(s);
                proof {
                    let entries = slots::slot_entries(self.slots);
                    assert forall|j: usize| #[trigger] entries.contains_key(j) implies self.values@[entries[j] as int] == old_values[entries[j] as int] by {
                        assert(old_entries.contains_key(j));
                        assert(old_entries[j] != old_entries[k]);
                    }
                    assert forall|i: int| 0 <= i < self.free@.len() implies #[trigger] self.free@[i] < self.values@.len()
                        && self.values@[self.free@[i] as int] is None by {
                    }
                    assert forall|i: int| 0 <= i < old(self).free@.len() implies old(self).free@[i] != s by {
                    }
                    assert(self@ =~= old(self)@.remove(k));
                }
                v
            },
            None => {
                proof {
                    assert(self@ =~= old(self)@.remove(k));
                }
                None
            },
        }
    }

    /// Clears the map, removing all key-value pairs.
    pub fn clear(&mut self)
        requires
            old(self).wf(),
        ensures
            final(self).wf(),
            final(self).arena_id() == old(self).arena_id(),
            final(self)@ == Map::<usize, V>::empty(),
    {
        self.slots.clear();
        self.values.clear();
        self.free.clear();
        assert(self@ =~= Map::<usize, V>::empty());
    }
}

/// A secondary set that references a subset of the arena.
///
/// The set keeps its arena alive, as an owner of it.
pub struct SecondarySet<T: SelfKeyed> {
    arena: u64,
    token: Rc<ArenaToken>,
    link: Rc<ArenaLink>,
    set: KeySet,
    items: PhantomData<T>,
}

impl<T: SelfKeyed> View for SecondarySet<T> {
    type V = Set<usize>;

    /// The positions of the items that the set holds.
    closed spec fn view(&self) -> Set<usize> {
        slots::set_members(self.set)
    }
}

impl<T: SelfKeyed> SecondarySet<T> {
    /// Identifies the arena whose items the set holds.
    pub closed spec fn arena_id(&self) -> u64 {
        self.arena
    }

    /// Whether a lookup of the item at position `pos` of arena `arena` finds it.
    pub open spec fn member(&self, arena: u64, pos: usize) -> bool {
        arena == self.arena_id() && self@.contains(pos)
    }

    /// Creates a new set for items from the specified `Arena`.
    pub fn new(arena: &Arena<T>) -> (r: Self)
        ensures
            r@ == Set::<usize>::empty(),
            r.arena_id() == arena.id(),
    {
        let (token, link) = arena.owner_handles();
        SecondarySet {
            arena: arena.arena_id(),
            token,
            link,
            set: KeySet::with_hasher(default_state()),
            items: PhantomData,
        }
    }

    /// Returns `true` if the set contains the specified key.
    pub fn contains<K: AnyRef<T>>(&self, key: &K) -> (r: bool)
        ensures
            r == self.member(key.arena_id(), key.position()),
    {
        let p = key.as_ptr();
        if p.arena != self.arena {
            return false;
        }
        self.set.contains(p.index)
    }

    /// Inserts a key into the set.
    ///
    /// Returns whether the key was newly inserted.
    pub fn insert<K: AnyRef<T>>(&mut self, key: K) -> (r: bool)
        requires
            key.arena_id() == old(self).arena_id(),
            old(self)@.len() < TABLE_LIMIT,
        ensures
            final(self).arena_id() == old(self).arena_id(),
            final(self)@ == old(self)@.insert(key.position()),
            r == !old(self)@.contains(key.position()),
    {
        let p = key.as_ptr();
        self.set.insert(p.index)
    }

    /// Removes a key from the set.
    ///
    /// Returns whether the key was present in the set.
    pub fn remove<K: AnyRef<T>>(&mut self, key: &K) -> (r: bool)
        ensures
            final(self).arena_id() == old(self).arena_id(),
            key.arena_id() == old(self).arena_id() ==> {
                &&& final(self)@ == old(self)@.remove(key.position())
                &&& r == old(self)@.contains(key.position())
            },
            key.arena_id() != old(self).arena_id() ==> final(self)@ == old(self)@ && !r,
    {
        let p = key.as_ptr();
        if p.arena != self.arena {
            return false;
        }
        self.set.remove(p.index)
    }

    /// Clears the set, removing all keys.
    pub fn clear(&mut self)
        ensures
            final(self).arena_id() == old(self).arena_id(),
            final(self)@ == Set::<usize>::empty(),
    {
        self.set.clear();
    }
}

} // verus!
