use vstd::prelude::*;
use std::rc::Rc;
use crate::collection::any_ref::{self, AnyRef, ItemPtr, ptr_eq};
use crate::collection::arena::Arena;
use crate::collection::reference::Ref;
use crate::collection::weak::Weak;
use crate::identity::SelfKeyed;
use crate::internal::hash::{hash_position, hash_word};
use crate::internal::token::{ArenaLink, ArenaToken, WeakPtr, rc_clone, rc_strong_count, rc_weak_count, weak_handles};
use crate::internal::stored::Stored;

verus! {

/// Reference-counted pointer to a single item in an arena.
///
/// A `Strong` is counted among the owners of the arena, and keeps its item alive.
#[verifier::reject_recursive_types(T)]
pub struct Strong<T> {
    arena: u64,
    index: usize,
    item: Rc<Stored<T>>,
    token: Rc<ArenaToken>,
    link: Rc<ArenaLink>,
}

impl<T> Strong<T> {
    /// The identifier of the arena that holds the item.
    pub closed spec fn spec_arena(&self) -> u64 {
        self.arena
    }

    /// The position of the item in its arena.
    pub closed spec fn spec_index(&self) -> usize {
        self.index
    }

    /// The referenced item.
    pub closed spec fn value(&self) -> T {
        self.item.value()
    }

    /// The token that the handle holds as an owner of its arena.
    pub closed spec fn token_value(&self) -> ArenaToken {
        *self.token
    }

    /// The link that the handle shares with its arena.
    pub closed spec fn link_value(&self) -> ArenaLink {
        *self.link
    }

    pub(crate) fn new(
        arena: u64,
        index: usize,
        item: Rc<Stored<T>>,
        token: Rc<ArenaToken>,
        link: Rc<ArenaLink>,
    ) -> (r: Strong<T>)
        ensures
            r.spec_arena() == arena,
            r.spec_index() == index,
            r.value() == item.value(),
            r.token_value() == *token,
            r.link_value() == *link,
    {
        Strong { arena, index, item, token, link }
    }

    /// A weakly reference-counted pointer to the same item.
    pub fn weak(&self) -> (r: Weak<T>)
        ensures
            r.spec_arena() == self.spec_arena(),
            r.spec_index() == self.spec_index(),
            r.value() == self.value(),
            r.token_target() == self.token_value(),
            r.link_target() == self.link_value(),
    {
        Weak::new(
            self.arena,
            self.index,
            rc_clone(&self.item),
            WeakPtr::downgrade(&self.token),
            WeakPtr::downgrade(&self.link),
        )
    }

    /// A simple reference to the same item.
    pub fn borrow(&self) -> (r: Ref<T>)
        ensures
            r.spec_arena() == self.spec_arena(),
            r.spec_index() == self.spec_index(),
            r.value() == self.value(),
            r.link_value() == self.link_value(),
    {
        Ref::new(self.arena, self.index, rc_clone(&self.item), rc_clone(&self.link))
    }

    /// Returns the number of strong pointers to the arena: the token's strong count,
    /// which only owners hold. The number depends on the handles alive; this handle is
    /// always one of them.
    pub fn arena_strong_count(&self) -> (r: usize)
        ensures
            r >= 1,
    {
        rc_strong_count(&self.token)
    }

    /// Returns the number of weak pointers to the arena: the token's weak count, less
    /// the one weak pointer of the arena's link. Nothing more is stated of the number:
    /// it depends on the handles alive.
    pub fn arena_weak_count(&self) -> usize {
        weak_handles(rc_weak_count(&self.token))
    }
}

impl<T: SelfKeyed> Strong<T> {
    /// Returns `true` if two references point to the same item.
    pub fn is<O: AnyRef<T>>(&self, other: &O) -> (r: bool)
        ensures
            r == any_ref::same_item(self.spec_arena(), self.spec_index(), other.arena_id(), other.position()),
    {
        ptr_eq(self, other)
    }

    /// Returns `true` if two references point to different items.
    /// Equivalent to `!self.is(other)`.
    pub fn is_not<O: AnyRef<T>>(&self, other: &O) -> (r: bool)
        ensures
            r == !any_ref::same_item(self.spec_arena(), self.spec_index(), other.arena_id(), other.position()),
    {
        !ptr_eq(self, other)
    }
}

impl<T: SelfKeyed> AnyRef<T> for Strong<T> {
    open spec fn arena_id(&self) -> u64 {
        self.spec_arena()
    }

    open spec fn position(&self) -> usize {
        self.spec_index()
    }

    fn as_ptr(&self) -> (r: ItemPtr) {
        ItemPtr { arena: self.arena, index: self.index }
    }

    fn owned_by(&self, arena: &Arena<T>) -> (r: bool) {
        arena.is_id(self.arena)
    }
}

impl<T> Clone for Strong<T> {
    fn clone(&self) -> (r: Self)
        ensures
            r == *self,
    {
        Strong {
            arena: self.arena,
            index: self.index,
            item: rc_clone(&self.item),
            token: rc_clone(&self.token),
            link: rc_clone(&self.link),
        }
    }
}

impl<T> core::ops::Deref for Strong<T> {
    type Target = T;

    fn deref(&self) -> (r: &T)
        ensures
            *r == self.value(),
    {
        self.item.get()
    }
}

impl<T> PartialEq for Strong<T> {
    fn eq(&self, other: &Self) -> (r: bool) {
        self.arena == other.arena && self.index == other.index
    }
}

impl<T> vstd::std_specs::cmp::PartialEqSpecImpl for Strong<T> {
    open spec fn obeys_eq_spec() -> bool {
        true
    }

    open spec fn eq_spec(&self, other: &Self) -> bool {
        self.spec_arena() == other.spec_arena() && self.spec_index() == other.spec_index()
    }
}

impl<T> Eq for Strong<T> {}

impl<T> core::hash::Hash for Strong<T> {
    /// Hashes what identifies the item, as `==` compares it.
    fn hash<H: core::hash::Hasher>(&self, state: &mut H) {
        hash_word(self.arena, state);
        hash_position(self.index, state);
    }
}

} // verus!
