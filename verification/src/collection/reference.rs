use vstd::prelude::*;
use std::rc::Rc;
use crate::collection::any_ref::{self, AnyRef, ItemPtr, ptr_eq};
use crate::collection::arena::Arena;
use crate::collection::strong::Strong;
use crate::collection::weak::Weak;
use crate::identity::SelfKeyed;
use crate::internal::token::{ArenaLink, ArenaToken, WeakPtr, rc_clone};
use crate::internal::stored::Stored;

verus! {

/// Simple reference to a single item in an arena.
///
/// A `Ref` is not counted among the owners of the arena.
#[derive(Hash)]
#[verifier::reject_recursive_types(T)]
pub struct Ref<T> {
    arena: u64,
    index: usize,
    item: Rc<Stored<T>>,
    link: Rc<ArenaLink>,
}

impl<T> Ref<T> {
    /// The identifier of the arena that holds the item.
    pub closed spec fn spec_arena(&self) -> u64 {
        self.arena
    }

    /// The position of the item in its arena.
    pub closed spec fn spec_index(&self) -> usize {
        self.index
    }

    /// The referenced item.
    pub closed spec fn value(&self) -> T {
        self.item.value()
    }

    /// The link that the reference shares with its arena.
    pub closed spec fn link_value(&self) -> ArenaLink {
        *self.link
    }

    pub(crate) fn new(arena: u64, index: usize, item: Rc<Stored<T>>, link: Rc<ArenaLink>) -> (r: Ref<T>)
        ensures
            r.spec_arena() == arena,
            r.spec_index() == index,
            r.value() == item.value(),
            r.link_value() == *link,
    {
        Ref { arena, index, item, link }
    }

    /// A reference-counted pointer to the same item, counted among the owners of the arena.
    ///
    /// A reference can outlive every owner of its arena; a pointer made then is the
    /// only owner of a token of its own.
    pub fn strong(&self) -> (r: Strong<T>)
        ensures
            r.spec_arena() == self.spec_arena(),
            r.spec_index() == self.spec_index(),
            r.value() == self.value(),
            r.link_value() == self.link_value(),
    {
        let token = match self.link.upgrade_token() {
            Some(token) => token,
            None => ArenaToken::fresh(),
        };
        Strong::new(self.arena, self.index, rc_clone(&self.item), token, rc_clone(&self.link))
    }

    /// A weakly reference-counted pointer to the same item.
    pub fn weak(&self) -> (r: Weak<T>)
        ensures
            r.spec_arena() == self.spec_arena(),
            r.spec_index() == self.spec_index(),
            r.value() == self.value(),
            r.link_target() == self.link_value(),
            r.token_target() == self.link_value().token_target(),
    {
        Weak::new(
            self.arena,
            self.index,
            rc_clone(&self.item),
            self.link.token_ptr(),
            WeakPtr::downgrade(&self.link),
        )
    }
}

impl<T: SelfKeyed> Ref<T> {
    /// Returns `true` if two references point to the same item.
    pub fn is<O: AnyRef<T>>(&self, other: &O) -> (r: bool)
        ensures
            r == any_ref::same_item(self.spec_arena(), self.spec_index(), other.arena_id(), other.position()),
    {
        ptr_eq(self, other)
    }

    /// Returns `true` if two references point to different items.
    /// Equivalent to `!self.is(other)`.
    pub fn is_not<O: AnyRef<T>>(&self, other: &O) -> (r: bool)
        ensures
            r == !any_ref::same_item(self.spec_arena(), self.spec_index(), other.arena_id(), other.position()),
    {
        !ptr_eq(self, other)
    }
}

impl<T: SelfKeyed> AnyRef<T> for Ref<T> {
    open spec fn arena_id(&self) -> u64 {
        self.spec_arena()
    }

    open spec fn position(&self) -> usize {
        self.spec_index()
    }

    fn as_ptr(&self) -> (r: ItemPtr) {
        ItemPtr { arena: self.arena, index: self.index }
    }

    fn owned_by(&self, arena: &Arena<T>) -> (r: bool) {
        arena.is_id(self.arena)
    }
}

impl<T> Clone for Ref<T> {
    fn clone(&self) -> (r: Self)
        ensures
            r == *self,
    {
        Ref {
            arena: self.arena,
            index: self.index,
            item: rc_clone(&self.item),
            link: rc_clone(&self.link),
        }
    }
}

impl<T> core::ops::Deref for Ref<T> {
    type Target = T;

    fn deref(&self) -> (r: &T)
        ensures
            *r == self.value(),
    {
        self.item.get()
    }
}

impl<T> PartialEq for Ref<T> {
    fn eq(&self, other: &Self) -> (r: bool) {
        self.arena == other.arena && self.index == other.index
    }
}

impl<T> vstd::std_specs::cmp::PartialEqSpecImpl for Ref<T> {
    open spec fn obeys_eq_spec() -> bool {
        true
    }

    open spec fn eq_spec(&self, other: &Self) -> bool {
        self.spec_arena() == other.spec_arena() && self.spec_index() == other.spec_index()
    }
}

impl<T> Eq for Ref<T> {}

} // verus!
