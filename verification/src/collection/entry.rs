use vstd::prelude::*;
use crate::collection::arena::{self, Arena};
use crate::collection::reference::Ref;
use crate::identity::{Identified, SelfKeyed};
use crate::internal::index::TABLE_LIMIT;

verus! {

/// An entry for an item that the arena holds.
#[verifier::reject_recursive_types(V)]
pub struct EntryOccupied<V> {
    pub(crate) item: Ref<V>,
}

/// An entry for an identity that the arena does not hold yet.
#[verifier::reject_recursive_types(V)]
pub struct EntryVacant<'a, V: SelfKeyed> {
    /// The arena that the entry inserts into.
    pub arena: &'a mut Arena<V>,
}

/// Utility for handling an identity entry which may or may not exist
#[verifier::reject_recursive_types(V)]
pub enum Entry<'a, V: SelfKeyed> {
    Occupied(EntryOccupied<V>),
    Vacant(EntryVacant<'a, V>),
}

impl<V> EntryOccupied<V> {
    /// The item that the entry refers to.
    pub closed spec fn item(&self) -> Ref<V> {
        self.item
    }

    pub(crate) fn new(item: Ref<V>) -> (r: Self)
        ensures
            r.item() == item,
    {
        EntryOccupied { item }
    }
}

impl<'a, V: SelfKeyed> Entry<'a, V> {
    /// The item of an occupied entry; `None` for a vacant entry.
    pub fn get(self) -> (r: Option<Ref<V>>)
        ensures
            match self {
                Entry::Occupied(e) => r == Some(e.item()),
                Entry::Vacant(_) => r is None,
            },
    {
        match self {
            Entry::Occupied(entry) => Some(entry.item),
            Entry::Vacant(_) => None,
        }
    }

    /// The item of an occupied entry; for a vacant entry, interns `default` and
    /// returns its item.
    pub fn or_insert(self, default: V) -> (r: Ref<V>)
        requires
            self matches Entry::Vacant(e) ==> e.arena.wf() && e.arena@.len() < TABLE_LIMIT,
        ensures
            match self {
                Entry::Occupied(e) => r == e.item(),
                Entry::Vacant(e) => {
                    &&& final(e.arena).wf()
                    &&& final(e.arena).id() == e.arena.id()
                    &&& final(e.arena)@ == arena::interned(e.arena@, arena::item_identity(default), default)
                    &&& r.spec_arena() == e.arena.id()
                    &&& r.value() == final(e.arena)@[r.spec_index() as int]
                    &&& r.link_value() == e.arena.link_value()
                    &&& arena::holds_identity(final(e.arena)@, arena::item_identity(r.value()))
                    &&& r.spec_index() == arena::interned_position(e.arena@, arena::item_identity(default))
                    &&& r.value().identity() == default.identity()
                    &&& r.value().identity() == arena::item_identity(default)
                },
            },
    {
        match self {
            Entry::Occupied(entry) => entry.item,
            Entry::Vacant(entry) => entry.arena.intern_owned(default),
        }
    }

    /// The item of an occupied entry; for a vacant entry, interns the value that
    /// `default` makes and returns its item. `default` is called only for a vacant entry.
    pub fn or_insert_with<F: FnOnce() -> V>(self, default: F) -> (r: Ref<V>)
        requires
            self matches Entry::Vacant(e) ==> {
                &&& e.arena.wf()
                &&& e.arena@.len() < TABLE_LIMIT
                &&& call_requires(default, ())
            },
        ensures
            match self {
                Entry::Occupied(e) => r == e.item(),
                Entry::Vacant(e) => exists|v: V| {
                    &&& call_ensures(default, (), v)
                    &&& final(e.arena).wf()
                    &&& final(e.arena).id() == e.arena.id()
                    &&& final(e.arena)@ == arena::interned(e.arena@, arena::item_identity(v), v)
                    &&& r.spec_arena() == e.arena.id()
                    &&& r.value() == final(e.arena)@[r.spec_index() as int]
                    &&& r.link_value() == e.arena.link_value()
                    &&& arena::holds_identity(final(e.arena)@, arena::item_identity(r.value()))
                    &&& r.spec_index() == arena::interned_position(e.arena@, arena::item_identity(v))
                    &&& r.value().identity() == v.identity()
                },
            },
    {
        match self {
            Entry::Occupied(entry) => entry.item,
            Entry::Vacant(entry) => {
                let v = default();
                let ghost made = v;
                let r = entry.arena.intern_owned(v);
                assert(call_ensures(default, (), made));
                r
            },
        }
    }
}

impl<'a, V: SelfKeyed + Default> Entry<'a, V> {
    /// The item of an occupied entry; for a vacant entry, interns `V::default()` and
    /// returns its item.
    pub fn or_default(self) -> (r: Ref<V>)
        requires
            self matches Entry::Vacant(e) ==> e.arena.wf() && e.arena@.len() < TABLE_LIMIT,
        ensures
            match self {
                Entry::Occupied(e) => r == e.item(),
                Entry::Vacant(e) => exists|v: V| {
                    &&& V::default.ensures((), v)
                    &&& final(e.arena).wf()
                    &&& final(e.arena).id() == e.arena.id()
                    &&& final(e.arena)@ == arena::interned(e.arena@, arena::item_identity(v), v)
                    &&& r.spec_arena() == e.arena.id()
                    &&& r.value() == final(e.arena)@[r.spec_index() as int]
                    &&& r.link_value() == e.arena.link_value()
                    &&& arena::holds_identity(final(e.arena)@, arena::item_identity(r.value()))
                    &&& r.spec_index() == arena::interned_position(e.arena@, arena::item_identity(v))
                    &&& r.value().identity() == v.identity()
                },
            },
    {
        match self {
            Entry::Occupied(entry) => entry.item,
            Entry::Vacant(entry) => {
                let v = V::default();
                let ghost made = v;
                let r = entry.arena.intern_owned(v);
                assert(V::default.ensures((), made));
                r
            },
        }
    }
}

} // verus!
