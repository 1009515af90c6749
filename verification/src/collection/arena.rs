use vstd::prelude::*;
use std::rc::Rc;
use crate::collection::entry::{Entry, EntryOccupied, EntryVacant};
use crate::collection::iter::ArenaIter;
use crate::collection::reference::Ref;
use crate::config::ArenaConfig;
use crate::collection::any_ref::AnyRef;
use crate::identity::{self, Identified, Identity, SelfKeyed};
use crate::internal::hash::default_state;
use crate::internal::index::{self as key_index, HashIndex, TABLE_LIMIT};
use crate::internal::token::{ArenaLink, ArenaToken, rc_address, rc_clone, rc_strong_count, rc_weak_count, weak_handles};
use crate::internal::stored::Stored;

verus! {

/// The identity under which an arena indexes an item: the identity that the item
/// stands for as a key of its own type.
pub open spec fn item_identity<T: Identity>(item: T) -> Seq<u64> {
    <T as Identity>::key_identity(&item)
}

/// The identity of the item at position `i`.
pub open spec fn identity_at<T: Identity>(items: Seq<T>, i: int) -> Seq<u64> {
    item_identity(items[i])
}

/// Some item has identity `id`.
pub open spec fn holds_identity<T: Identity>(items: Seq<T>, id: Seq<u64>) -> bool {
    exists|i: int| 0 <= i < items.len() && #[trigger] identity_at(items, i) == id
}

/// The position of an item with identity `id`.
pub open spec fn position_of<T: Identity>(items: Seq<T>, id: Seq<u64>) -> int {
    choose|i: int| 0 <= i < items.len() && #[trigger] identity_at(items, i) == id
}

/// No two items have the same identity.
pub open spec fn distinct_identities<T: Identity>(items: Seq<T>) -> bool {
    forall|i: int, j: int|
        0 <= i < items.len() && 0 <= j < items.len() && i != j ==> #[trigger] identity_at(items, i)
            != #[trigger] identity_at(items, j)
}

/// The items after interning a value of identity `id`, which is `v` when it is new.
pub open spec fn interned<T: Identity>(items: Seq<T>, id: Seq<u64>, v: T) -> Seq<T> {
    if holds_identity(items, id) {
        items
    } else {
        items.push(v)
    }
}

/// The position of the item that interning a value of identity `id` refers to.
pub open spec fn interned_position<T: Identity>(items: Seq<T>, id: Seq<u64>) -> int {
    if holds_identity(items, id) {
        position_of(items, id)
    } else {
        items.len() as int
    }
}

/// `after` is `before` after interning a value of identity `id`, and `pos` is the
/// position of the item that the interning refers to: the item that already had the
/// identity, or a new last item with that identity.
pub open spec fn interning<T: Identity>(before: Seq<T>, after: Seq<T>, id: Seq<u64>, pos: int) -> bool {
    if holds_identity(before, id) {
        &&& after == before
        &&& pos == position_of(before, id)
    } else {
        &&& after.len() == before.len() + 1
        &&& after.drop_last() == before
        &&& pos == before.len()
        &&& identity_at(after, pos) == id
    }
}

/// The total length of the items' identities, in words.
pub open spec fn identity_words<T: Identity>(items: Seq<T>) -> int
    decreases items.len(),
{
    if items.len() == 0 {
        0
    } else {
        identity_words(items.drop_last()) + identity_at(items, items.len() - 1).len()
    }
}

/// An arena of interned items.
///
/// Each item is held once: interning a value whose identity (see [`Identity`]) the
/// arena already holds returns the existing item. Items are never removed or moved,
/// so a reference stays valid for as long as it lives; references keep their item
/// alive after the arena itself is gone, and each item is released with its last
/// pointer. When the arena's config says not to drop items, `Drop::drop` never runs on
/// them: their memory is freed without it.
#[verifier::reject_recursive_types(T)]
pub struct Arena<T: SelfKeyed> {
    token: Rc<ArenaToken>,
    link: Rc<ArenaLink>,
    id: u64,
    items: Vec<Rc<Stored<T>>>,
    index: HashIndex,
    key_words: usize,
    config: ArenaConfig,
}

impl<T: SelfKeyed> View for Arena<T> {
    type V = Seq<T>;

    /// The items of the arena, in the order they were interned.
    closed spec fn view(&self) -> Seq<T> {
        Seq::new(self.items@.len(), |i: int| self.items@[i].value())
    }
}

impl<T: SelfKeyed> Arena<T> {
    /// The identifier of the arena: the address of an allocation that the arena and
    /// its references keep alive. That no two live arenas share it is a fact about the
    /// allocator that no contract here states.
    pub closed spec fn id(&self) -> u64 {
        self.id
    }

    /// The token that the arena's owners hold.
    pub closed spec fn token_value(&self) -> ArenaToken {
        *self.token
    }

    /// The link that the arena shares with its references.
    pub closed spec fn link_value(&self) -> ArenaLink {
        *self.link
    }

    /// The link of a well-formed arena points to the arena's token: the token that
    /// its owners hold is the one that weak handles made through its references
    /// upgrade against.
    pub proof fn lemma_link_to_token(&self)
        requires
            self.wf(),
        ensures
            self.link_value().token_target() == self.token_value(),
    {
    }

    /// The configuration the arena was created with.
    pub closed spec fn spec_config(&self) -> ArenaConfig {
        self.config
    }

    /// The arena's invariant: its index maps the identity of each item to the item's
    /// position, and holds nothing else.
    pub closed spec fn wf(&self) -> bool {
        let entries = key_index::index_entries(self.index);
        &&& entries.dom().finite()
        &&& entries.len() == self@.len()
        &&& self.key_words == min_usize(identity_words(self@))
        &&& self.link_value().token_target() == self.token_value()
        &&& forall|i: int|
            0 <= i < self@.len() ==> #[trigger] entries.contains_key(identity_at(self@, i))
                && entries[identity_at(self@, i)] == i
        &&& forall|k: Seq<u64>|
            #[trigger] entries.contains_key(k) ==> entries[k] < self@.len() && identity_at(
                self@,
                entries[k] as int,
            ) == k
    }

    /// A well-formed arena never holds two items with the same identity, so no two of
    /// its items are equivalent.
    pub proof fn lemma_distinct(&self)
        requires
            self.wf(),
        ensures
            distinct_identities(self@),
            forall|i: int, j: int|
                0 <= i < self@.len() && 0 <= j < self@.len() && i != j ==> #[trigger] self@[i].identity()
                    != #[trigger] self@[j].identity(),
    {
        assert forall|i: int| 0 <= i < self@.len() implies #[trigger] self@[i].identity() == identity_at(self@, i) by {
            T::lemma_self_key(&self@[i]);
        }
        let entries = key_index::index_entries(self.index);
        assert forall|i: int, j: int|
            0 <= i < self@.len() && 0 <= j < self@.len() && i != j implies #[trigger] identity_at(
            self@,
            i,
        ) != #[trigger] identity_at(self@, j) by {
            assert(entries.contains_key(identity_at(self@, i)));
            assert(entries.contains_key(identity_at(self@, j)));
        }
    }

    /// Creates an empty `Arena` with a custom config.
    pub fn with_config(config: ArenaConfig) -> (r: Self)
        ensures
            r.wf(),
            r@ == Seq::<T>::empty(),
            r.spec_config() == config,
    {
        let token = ArenaToken::fresh();
        let link = ArenaLink::new(&token);
        let id: u64 = rc_address(&token);
        let r = Arena {
            token,
            link,
            id,
            items: Vec::new(),
            index: HashIndex::with_hasher(default_state()),
            key_words: 0,
            config,
        };
        assert(r@ =~= Seq::<T>::empty());
        r
    }

    /// Creates an empty `Arena` with the default config.
    pub fn new() -> (r: Self)
        ensures
            r.wf(),
            r@ == Seq::<T>::empty(),
            r.spec_config().drop_items,
    {
        Self::with_config(ArenaConfig::default())
    }

    /// Returns the configuration of an arena.
    pub fn config(&self) -> (r: &ArenaConfig)
        ensures
            *r == self.spec_config(),
    {
        &self.config
    }

    /// The identifier of the arena.
    pub(crate) fn arena_id(&self) -> (r: u64)
        ensures
            r == self.id(),
    {
        self.id
    }

    /// New pointers that count as owners of the arena, for collections that keep it alive.
    pub(crate) fn owner_handles(&self) -> (r: (Rc<ArenaToken>, Rc<ArenaLink>))
        ensures
            *r.0 == self.token_value(),
            *r.1 == self.link_value(),
    {
        (rc_clone(&self.token), rc_clone(&self.link))
    }

    /// Tests the identifier of the arena.
    pub(crate) fn is_id(&self, id: u64) -> (r: bool)
        ensures
            r == (self.id() == id),
    {
        self.id == id
    }

    /// Returns the number of items in this arena.
    pub fn len(&self) -> (r: usize)
        ensures
            r == self@.len(),
    {
        self.items.len()
    }

    /// Finds the position of the item with the given identity.
    fn find(&self, key: &[u64]) -> (r: Option<usize>)
        requires
            self.wf(),
        ensures
            match r {
                Some(p) => {
                    &&& p < self@.len()
                    &&& holds_identity(self@, key@)
                    &&& identity_at(self@, p as int) == key@
                    &&& position_of(self@, key@) == p
                },
                None => !holds_identity(self@, key@),
            },
    {
        let r = self.index.get(key);
        proof {
            let entries = key_index::index_entries(self.index);
            match r {
                Some(p) => {
                    assert(identity_at(self@, p as int) == key@);
                    let q: int = position_of(self@, key@);
                    self.lemma_distinct();
                    assert(identity_at(self@, q) == key@);
                },
                None => {
                    if holds_identity(self@, key@) {
                        let i: int = choose|i: int|
                            0 <= i < self@.len() && #[trigger] identity_at(self@, i) == key@;
                        assert(entries.contains_key(identity_at(self@, i)));
                    }
                },
            }
        }
        r
    }

    /// Appends an item whose identity is new to the arena.
    fn insert_new(&mut self, key: Vec<u64>, val: T) -> (pos: usize)
        requires
            old(self).wf(),
            key@ == item_identity(val),
            !holds_identity(old(self)@, key@),
            old(self)@.len() < TABLE_LIMIT,
        ensures
            final(self).wf(),
            final(self)@ == old(self)@.push(val),
            pos == old(self)@.len(),
            final(self).id() == old(self).id(),
            final(self).spec_config() == old(self).spec_config(),
            final(self).token_value() == old(self).token_value(),
            final(self).link_value() == old(self).link_value(),
    {
        let pos: usize = self.items.len();
        let ghost old_items = self@;
        let ghost old_entries = key_index::index_entries(self.index);
        self.key_words = self.key_words.saturating_add(key.len());
        self.index.insert(key, pos);
        let item = Rc::new(Stored::new(val, self.config.drop_items));
        self.items.push(item);
        proof {
            let entries = key_index::index_entries(self.index);
            assert(self@ =~= old_items.push(val));
            assert(identity_at(self@, pos as int) == key@);
            assert(self@.drop_last() =~= old_items);
            assert(identity_words(self@) == identity_words(old_items) + key@.len());
            assert forall|i: int| 0 <= i < self@.len() implies #[trigger] entries.contains_key(
                identity_at(self@, i),
            ) && entries[identity_at(self@, i)] == i by {
                if i < pos {
                    assert(identity_at(self@, i) == identity_at(old_items, i));
                    assert(old_entries.contains_key(identity_at(old_items, i)));
                    assert(identity_at(old_items, i) != key@);
                }
            }
            assert forall|k: Seq<u64>| #[trigger] entries.contains_key(k) implies entries[k]
                < self@.len() && identity_at(self@, entries[k] as int) == k by {
                if k != key@ {
                    assert(old_entries.contains_key(k));
                    assert(identity_at(self@, old_entries[k] as int) == identity_at(old_items, old_entries[k] as int));
                }
            }
        }
        pos
    }

    /// A reference to the item at a position.
    fn reference(&self, pos: usize) -> (r: Ref<T>)
        requires
            pos < self@.len(),
        ensures
            r.spec_arena() == self.id(),
            r.spec_index() == pos,
            r.value() == self@[pos as int],
            r.link_value() == self.link_value(),
    {
        Ref::new(self.id, pos, rc_clone(&self.items[pos]), rc_clone(&self.link))
    }

    /// Returns `true` if two references point to the same arena.
    pub fn is(&self, other: &Self) -> (r: bool)
        ensures
            r == (self.id() == other.id()),
    {
        self.id == other.id
    }

    /// Returns `true` if two references point to different arenas.
    /// Equivalent to `!self.is(other)`.
    pub fn is_not(&self, other: &Self) -> (r: bool)
        ensures
            r == (self.id() != other.id()),
    {
        !self.is(other)
    }

    /// Returns `true` if the referenced item is allocated in this arena.
    pub fn owns<R: AnyRef<T>>(&self, item: &R) -> (r: bool)
        ensures
            r == (item.arena_id() == self.id()),
    {
        item.owned_by(self)
    }

    /// Returns the number of strong pointers to this arena.
    ///
    /// This includes `Arena`, `Strong` and secondary collection values that reference
    /// this arena: the token's strong count, which only they hold. The number depends
    /// on the handles alive; the arena itself is always one of them.
    pub fn strong_count(&self) -> (r: usize)
        ensures
            r >= 1,
    {
        rc_strong_count(&self.token)
    }

    /// Returns the number of weak pointers to this arena.
    ///
    /// This includes `Weak` values that reference this allocation: the token's weak
    /// count, less the one weak pointer of the arena's link. Nothing more is stated of
    /// the number: it depends on the handles alive.
    pub fn weak_count(&self) -> usize {
        weak_handles(rc_weak_count(&self.token))
    }

    /// The bytes that `allocation_size` reports for an index table of `index_bytes`
    /// bytes and an item buffer of `slots` pointers: the arena's own size, the items'
    /// size, the buffer, the 8-byte words of the item identities that the index holds,
    /// and the table; `usize::MAX` when larger.
    pub open spec fn allocation_total(&self, index_bytes: int, slots: int) -> int {
        min_usize(
            vstd::layout::size_of::<Arena<T>>() + self@.len() * vstd::layout::size_of::<T>()
                + slots * vstd::layout::size_of::<Rc<Stored<T>>>() + 8 * identity_words(self@) + index_bytes,
        )
    }

    /// Returns the total heap memory allocated by this arena, in bytes.
    ///
    /// This includes all allocated items, index, configuration, and other metadata:
    /// the total of `allocation_size_with` for the bytes of the index's table and the
    /// capacity of the item buffer. The allocations' own headers, and what an item
    /// itself allocates, are not counted.
    pub fn allocation_size(&self) -> (r: usize)
        requires
            self.wf(),
        ensures
            exists|index_bytes: int, slots: int|
                0 <= index_bytes <= isize::MAX && self@.len() <= slots <= usize::MAX && r
                    == self.allocation_total(index_bytes, slots),
    {
        let index_bytes: usize = self.index.allocation_size();
        let slots: usize = vec_capacity(&self.items);
        self.allocation_size_with(index_bytes, slots)
    }

    /// The total heap memory of this arena, in bytes, for an index table of
    /// `index_bytes` bytes and an item buffer of `slots` pointers.
    pub fn allocation_size_with(&self, index_bytes: usize, slots: usize) -> (r: usize)
        requires
            self.wf(),
        ensures
            r == self.allocation_total(index_bytes as int, slots as int),
    {
        let base: usize = core::mem::size_of::<Arena<T>>();
        let item_size: usize = core::mem::size_of::<T>();
        let items: usize = mul_saturating(self.items.len(), item_size);
        let buffer: usize = mul_saturating(slots, core::mem::size_of::<Rc<Stored<T>>>());
        let keys: usize = mul_saturating(self.key_words, 8);
        proof {
            lemma_identity_words_nonneg(self@);
            let w = identity_words(self@);
            assert(keys == min_usize(w * 8)) by {
                if w > usize::MAX {
                    assert(self.key_words == usize::MAX);
                    assert(self.key_words * 8 > usize::MAX);
                }
            }
        }
        let total: usize = base.saturating_add(items).saturating_add(buffer).saturating_add(keys).saturating_add(
            index_bytes,
        );
        total
    }

    /// Returns an iterator over all items in this arena, in the order they were interned.
    pub fn iter(&self) -> (r: ArenaIter<'_, T>)
        ensures
            r.arena() == *self,
            r.position() == 0,
    {
        ArenaIter::new(self)
    }

    /// The reference that an iterator hands out for a position.
    pub(crate) fn reference_at(&self, pos: usize) -> (r: Ref<T>)
        requires
            pos < self@.len(),
        ensures
            r.spec_arena() == self.id(),
            r.spec_index() == pos,
            r.value() == self@[pos as int],
            r.link_value() == self.link_value(),
    {
        self.reference(pos)
    }

    /// Returns a reference to an item identified by the specified key.
    ///
    /// The key may be any type where the item implements `Identity<K>`.
    pub fn get<K: ?Sized>(&self, key: &K) -> (r: Option<Ref<T>>)
        where T: Identity<K>
        requires
            self.wf(),
        ensures
            match r {
                Some(item) => {
                    let id = <T as Identity<K>>::key_identity(key);
                    &&& holds_identity(self@, id)
                    &&& item.spec_arena() == self.id()
                    &&& item.link_value() == self.link_value()
                    &&& item.spec_index() == position_of(self@, id)
                    &&& item.value() == self@[position_of(self@, id)]
                    &&& item_identity(item.value()) == id
                    &&& item.value().identity() == id
                },
                None => !holds_identity(self@, <T as Identity<K>>::key_identity(key)),
            },
    {
        let k = <T as Identity<K>>::index(key);
        match self.find(k.as_slice()) {
            Some(p) => {
                proof {
                    T::lemma_self_key(&self@[p as int]);
                }
                Some(self.reference(p))
            },
            None => None,
        }
    }

    /// Returns `true` if the arena contains an item identified by the specified key.
    ///
    /// The key may be any type where the item implements `Identity<K>`.
    pub fn contains<K: ?Sized>(&self, key: &K) -> (r: bool)
        where T: Identity<K>
        requires
            self.wf(),
        ensures
            r == holds_identity(self@, <T as Identity<K>>::key_identity(key)),
    {
        let k = <T as Identity<K>>::index(key);
        self.find(k.as_slice()).is_some()
    }

    /// Interns a value in the arena by moving it to the heap.
    ///
    /// If an identical value is found in the arena (see [`Identity`]), the existing value is returned.
    pub fn intern_owned(&mut self, val: T) -> (r: Ref<T>)
        requires
            old(self).wf(),
            old(self)@.len() < TABLE_LIMIT,
        ensures
            final(self).wf(),
            final(self).id() == old(self).id(),
            final(self).spec_config() == old(self).spec_config(),
            final(self).token_value() == old(self).token_value(),
            final(self).link_value() == old(self).link_value(),
            final(self)@ == interned(old(self)@, item_identity(val), val),
            r.spec_arena() == final(self).id(),
            r.link_value() == final(self).link_value(),
            r.spec_index() == interned_position(old(self)@, item_identity(val)),
            r.value() == final(self)@[r.spec_index() as int],
            holds_identity(final(self)@, item_identity(val)),
            r.value().identity() == val.identity(),
            r.value().identity() == item_identity(val),
            identity::exact_identities::<T>() ==> r.value() == val,
    {
        let key = <T as Identity>::index(&val);
        proof {
            T::lemma_self_key(&val);
        }
        let pos: usize = match self.find(key.as_slice()) {
            Some(p) => {
                proof {
                    T::lemma_self_key(&self@[p as int]);
                }
                p
            },
            None => self.insert_new(key, val),
        };
        self.reference(pos)
    }

    /// Interns a value in the arena by cloning it to the heap.
    ///
    /// If an item with the value's identity is found, it is returned and nothing is
    /// cloned; otherwise a clone of the value is interned.
    pub fn intern_cloned(&mut self, val: &T) -> (r: Ref<T>)
        where T: Clone
        requires
            old(self).wf(),
            old(self)@.len() < TABLE_LIMIT,
        ensures
            final(self).wf(),
            final(self).id() == old(self).id(),
            final(self).spec_config() == old(self).spec_config(),
            final(self).token_value() == old(self).token_value(),
            final(self).link_value() == old(self).link_value(),
            r.spec_arena() == final(self).id(),
            r.link_value() == final(self).link_value(),
            r.value() == final(self)@[r.spec_index() as int],
            holds_identity(final(self)@, item_identity(r.value())),
            holds_identity(old(self)@, item_identity(*val)) ==> {
                &&& final(self)@ == old(self)@
                &&& r.spec_index() == position_of(old(self)@, item_identity(*val))
                &&& r.value().identity() == val.identity()
                &&& r.value().identity() == item_identity(*val)
                &&& identity::exact_identities::<T>() ==> r.value() == *val
            },
            !holds_identity(old(self)@, item_identity(*val)) ==> exists|c: T| {
                &&& cloned::<T>(*val, c)
                &&& final(self)@ == interned(old(self)@, item_identity(c), c)
                &&& r.spec_index() == interned_position(old(self)@, item_identity(c))
                &&& r.value().identity() == c.identity()
            },
    {
        let key = <T as Identity>::index(val);
        match self.find(key.as_slice()) {
            Some(p) => {
                proof {
                    T::lemma_self_key(val);
                    T::lemma_self_key(&self@[p as int]);
                }
                self.reference(p)
            },
            None => {
                let c = val.clone();
                let ghost copy = c;
                let r = self.intern_owned(c);
                assert(cloned::<T>(*val, copy));
                r
            },
        }
    }

    /// Returns an entry for the item identified by the key: occupied when the arena
    /// holds such an item, vacant otherwise.
    pub fn entry<K: ?Sized>(&mut self, key: &K) -> (r: Entry<'_, T>)
        where T: Identity<K>
        requires
            old(self).wf(),
        ensures
            match r {
                Entry::Occupied(e) => {
                    let id = <T as Identity<K>>::key_identity(key);
                    &&& holds_identity(old(self)@, id)
                    &&& e.item().spec_arena() == old(self).id()
                    &&& e.item().link_value() == old(self).link_value()
                    &&& e.item().spec_index() == position_of(old(self)@, id)
                    &&& e.item().value() == old(self)@[position_of(old(self)@, id)]
                    &&& e.item().value().identity() == id
                    &&& *final(self) == *old(self)
                },
                Entry::Vacant(e) => {
                    &&& !holds_identity(old(self)@, <T as Identity<K>>::key_identity(key))
                    &&& *e.arena == *old(self)
                    &&& *final(e.arena) == *final(self)
                },
            },
    {
        match self.get(key) {
            Some(item) => Entry::Occupied(EntryOccupied::new(item)),
            None => Entry::Vacant(EntryVacant { arena: self }),
        }
    }
}

impl Arena<String> {
    /// Interns a value in the arena by copying it to the heap.
    ///
    /// If an identical value is found in the arena (see [`Identity`]), the existing value is returned.
    pub fn intern(&mut self, val: &str) -> (r: Ref<String>)
        requires
            old(self).wf(),
            old(self)@.len() < TABLE_LIMIT,
        ensures
            final(self).wf(),
            final(self).id() == old(self).id(),
            final(self).spec_config() == old(self).spec_config(),
            final(self).token_value() == old(self).token_value(),
            final(self).link_value() == old(self).link_value(),
            interning(old(self)@, final(self)@, identity::text_identity(val@), r.spec_index() as int),
            r.spec_arena() == final(self).id(),
            r.link_value() == final(self).link_value(),
            r.value() == final(self)@[r.spec_index() as int],
            r.value()@ == val@,
    {
        let key = <String as Identity<str>>::index(val);
        let pos: usize = match self.find(key.as_slice()) {
            Some(p) => p,
            None => {
                let owned = val.to_owned();
                assert(item_identity(owned) == identity::text_identity(owned@));
                self.insert_new(key, owned)
            },
        };
        let r = self.reference(pos);
        proof {
            assert(identity_at(self@, pos as int) == identity::text_identity(self@[pos as int]@));
            identity::lemma_text_identity_injective(self@[pos as int]@, val@);
            assert(self@.drop_last() =~= old(self)@ || holds_identity(old(self)@, identity::text_identity(val@)));
        }
        r
    }
}

impl<T: Copy + Identity> Arena<Vec<T>> {
    /// Interns a value in the arena by copying it to the heap.
    ///
    /// If an identical value is found in the arena (see [`Identity`]), the existing value is returned.
    pub fn intern(&mut self, val: &[T]) -> (r: Ref<Vec<T>>)
        requires
            old(self).wf(),
            old(self)@.len() < TABLE_LIMIT,
        ensures
            final(self).wf(),
            final(self).id() == old(self).id(),
            final(self).spec_config() == old(self).spec_config(),
            final(self).token_value() == old(self).token_value(),
            final(self).link_value() == old(self).link_value(),
            interning(old(self)@, final(self)@, identity::seq_identity(val@), r.spec_index() as int),
            r.spec_arena() == final(self).id(),
            r.link_value() == final(self).link_value(),
            r.value() == final(self)@[r.spec_index() as int],
            !holds_identity(old(self)@, identity::seq_identity(val@)) ==> r.value()@ == val@,
            identity::exact_identities::<T>() ==> r.value()@ == val@,
    {
        let key = <Vec<T> as Identity<[T]>>::index(val);
        let pos: usize = match self.find(key.as_slice()) {
            Some(p) => p,
            None => {
                let owned = vstd::slice::slice_to_vec(val);
                assert(item_identity(owned) == identity::seq_identity(owned@));
                self.insert_new(key, owned)
            },
        };
        let r = self.reference(pos);
        proof {
            assert(self@.drop_last() =~= old(self)@ || holds_identity(old(self)@, identity::seq_identity(val@)));
            if identity::exact_identities::<T>() {
                assert(identity_at(self@, pos as int) == identity::seq_identity(self@[pos as int]@));
                identity::lemma_seq_identity_exact(self@[pos as int]@, val@);
            }
        }
        r
    }
}

/// `n`, or `usize::MAX` when `n` is larger.
pub open spec fn min_usize(n: int) -> int {
    if n > usize::MAX { usize::MAX as int } else { n }
}

/// The total length of identities is never negative.
proof fn lemma_identity_words_nonneg<T: Identity>(items: Seq<T>)
    ensures
        identity_words(items) >= 0,
    decreases items.len(),
{
    if items.len() > 0 {
        lemma_identity_words_nonneg(items.drop_last());
    }
}

/// The number of elements a vector can hold without reallocating (`Vec::capacity`),
/// which the documentation promises is never less than its length.
#[verifier::external_body]
fn vec_capacity<T>(v: &Vec<T>) -> (r: usize)
    ensures
        r >= v@.len(),
{
    v.capacity()
}

/// Multiplies, giving `usize::MAX` when the product is larger.
fn mul_saturating(a: usize, b: usize) -> (r: usize)
    ensures
        r == min_usize(a * b),
{
    match a.checked_mul(b) {
        Some(p) => p,
        None => usize::MAX,
    }
}

impl<T: SelfKeyed> PartialEq for Arena<T> {
    fn eq(&self, other: &Self) -> (r: bool) {
        self.is(other)
    }
}

impl<T: SelfKeyed> vstd::std_specs::cmp::PartialEqSpecImpl for Arena<T> {
    open spec fn obeys_eq_spec() -> bool {
        true
    }

    open spec fn eq_spec(&self, other: &Self) -> bool {
        self.id() == other.id()
    }
}

impl<T: SelfKeyed> Eq for Arena<T> {}

} // verus!
