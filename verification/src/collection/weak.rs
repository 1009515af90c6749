use vstd::prelude::*;
use std::rc::Rc;
use crate::collection::any_ref::{self, AnyRef, ItemPtr, ptr_eq};
use crate::collection::arena::Arena;
use crate::collection::strong::Strong;
use crate::identity::SelfKeyed;
use crate::internal::hash::{hash_position, hash_word};
use crate::internal::token::{ArenaLink, ArenaToken, WeakPtr, rc_clone};
use crate::internal::stored::Stored;

verus! {

/// Weakly reference counted pointer to a single item in an arena.
///
/// A `Weak` does not keep the arena alive: once every owner of the arena (the arena,
/// its `Strong` handles and its secondary collections) is gone, it can no longer be
/// upgraded. It does keep its own item alive, so that `value` is the item it upgrades to.
#[verifier::reject_recursive_types(T)]
pub struct Weak<T> {
    arena: u64,
    index: usize,
    item: Rc<Stored<T>>,
    token: WeakPtr<ArenaToken>,
    link: WeakPtr<ArenaLink>,
}

impl<T> Weak<T> {
    /// The identifier of the arena that holds the item.
    pub closed spec fn spec_arena(&self) -> u64 {
        self.arena
    }

    /// The position of the item in its arena.
    pub closed spec fn spec_index(&self) -> usize {
        self.index
    }

    /// The referenced item.
    pub closed spec fn value(&self) -> T {
        self.item.value()
    }

    /// The token of the arena that the pointer upgrades against.
    pub closed spec fn token_target(&self) -> ArenaToken {
        self.token.target()
    }

    /// The link of the arena that the pointer upgrades against.
    pub closed spec fn link_target(&self) -> ArenaLink {
        self.link.target()
    }

    pub(crate) fn new(
        arena: u64,
        index: usize,
        item: Rc<Stored<T>>,
        token: WeakPtr<ArenaToken>,
        link: WeakPtr<ArenaLink>,
    ) -> (r: Weak<T>)
        ensures
            r.spec_arena() == arena,
            r.spec_index() == index,
            r.value() == item.value(),
            r.token_target() == token.target(),
            r.link_target() == link.target(),
    {
        Weak { arena, index, item, token, link }
    }

    /// A strong pointer to the same item, if the arena is still alive.
    pub fn strong(&self) -> (r: Option<Strong<T>>)
        ensures
            r matches Some(s) ==> {
                &&& s.spec_arena() == self.spec_arena()
                &&& s.spec_index() == self.spec_index()
                &&& s.value() == self.value()
            },
    {
        let token = self.token.upgrade();
        let link = self.link.upgrade();
        self.upgraded(token, link)
    }

    /// The strong pointer that the upgrades of the arena's allocations give: a
    /// pointer to the same item exactly when both allocations were still alive.
    pub fn upgraded(&self, token: Option<Rc<ArenaToken>>, link: Option<Rc<ArenaLink>>) -> (r: Option<Strong<T>>)
        ensures
            r is Some == (token is Some && link is Some),
            r matches Some(s) ==> {
                &&& s.spec_arena() == self.spec_arena()
                &&& s.spec_index() == self.spec_index()
                &&& s.value() == self.value()
                &&& s.token_value() == *token.unwrap()
                &&& s.link_value() == *link.unwrap()
            },
    {
        match token {
            Some(token) => match link {
                Some(link) => Some(Strong::new(self.arena, self.index, rc_clone(&self.item), token, link)),
                None => None,
            },
            None => None,
        }
    }
}

impl<T: SelfKeyed> Weak<T> {
    /// Returns `true` if two references point to the same item.
    pub fn is<O: AnyRef<T>>(&self, other: &O) -> (r: bool)
        ensures
            r == any_ref::same_item(self.spec_arena(), self.spec_index(), other.arena_id(), other.position()),
    {
        ptr_eq(self, other)
    }

    /// Returns `true` if two references point to different items.
    /// Equivalent to `!self.is(other)`.
    pub fn is_not<O: AnyRef<T>>(&self, other: &O) -> (r: bool)
        ensures
            r == !any_ref::same_item(self.spec_arena(), self.spec_index(), other.arena_id(), other.position()),
    {
        !ptr_eq(self, other)
    }
}

impl<T: SelfKeyed> AnyRef<T> for Weak<T> {
    open spec fn arena_id(&self) -> u64 {
        self.spec_arena()
    }

    open spec fn position(&self) -> usize {
        self.spec_index()
    }

    fn as_ptr(&self) -> (r: ItemPtr) {
        ItemPtr { arena: self.arena, index: self.index }
    }

    fn owned_by(&self, arena: &Arena<T>) -> (r: bool) {
        arena.is_id(self.arena)
    }
}

impl<T> From<Strong<T>> for Weak<T> {
    fn from(sym: Strong<T>) -> (r: Self)
        ensures
            r.spec_arena() == sym.spec_arena(),
            r.spec_index() == sym.spec_index(),
            r.value() == sym.value(),
            r.token_target() == sym.token_value(),
            r.link_target() == sym.link_value(),
    {
        sym.weak()
    }
}

impl<T> vstd::std_specs::convert::FromSpecImpl<Strong<T>> for Weak<T> {
    /// A weak pointer holds an opaque pointer to the arena, so no exact value is
    /// promised; `from` states what it keeps of the strong pointer.
    open spec fn obeys_from_spec() -> bool {
        false
    }

    open spec fn from_spec(v: Strong<T>) -> Self {
        vstd::pervasive::arbitrary()
    }
}

impl<T> Clone for Weak<T> {
    fn clone(&self) -> (r: Self)
        ensures
            r.spec_arena() == self.spec_arena(),
            r.spec_index() == self.spec_index(),
            r.value() == self.value(),
            r.token_target() == self.token_target(),
            r.link_target() == self.link_target(),
    {
        Weak {
            arena: self.arena,
            index: self.index,
            item: rc_clone(&self.item),
            token: self.token.clone_ptr(),
            link: self.link.clone_ptr(),
        }
    }
}

impl<T> PartialEq for Weak<T> {
    fn eq(&self, other: &Self) -> (r: bool) {
        self.arena == other.arena && self.index == other.index
    }
}

impl<T> vstd::std_specs::cmp::PartialEqSpecImpl for Weak<T> {
    open spec fn obeys_eq_spec() -> bool {
        true
    }

    open spec fn eq_spec(&self, other: &Self) -> bool {
        self.spec_arena() == other.spec_arena() && self.spec_index() == other.spec_index()
    }
}

impl<T> Eq for Weak<T> {}

impl<T> core::hash::Hash for Weak<T> {
    /// Hashes what identifies the item, as `==` compares it.
    fn hash<H: core::hash::Hasher>(&self, state: &mut H) {
        hash_word(self.arena, state);
        hash_position(self.index, state);
    }
}

} // verus!
