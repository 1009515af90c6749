use vstd::prelude::*;
use crate::collection::arena::Arena;
use crate::identity::SelfKeyed;

verus! {

/// What identifies an item: the arena that holds it and its position there.
/// It stands for the item's address.
#[derive(PartialEq, Eq, Structural, Clone, Copy, Debug)]
pub struct ItemPtr {
    /// Identifies the arena.
    pub arena: u64,
    /// The item's position in the arena.
    pub index: usize,
}

/// Trait for references to an item in an arena.
pub trait AnyRef<T: SelfKeyed> {
    /// The identifier of the arena that holds the referenced item.
    spec fn arena_id(&self) -> u64;

    /// The position of the referenced item in its arena.
    spec fn position(&self) -> usize;

    /// Gets what identifies the referenced item.
    fn as_ptr(&self) -> (r: ItemPtr)
        ensures
            r.arena == self.arena_id(),
            r.index == self.position(),
    ;

    /// Returns `true` if this item is allocated in the specified arena.
    fn owned_by(&self, arena: &Arena<T>) -> (r: bool)
        ensures
            r == (self.arena_id() == arena.id()),
    ;
}

/// Compares what identifies two items.
pub fn ptr_eq<T: SelfKeyed, A: AnyRef<T>, B: AnyRef<T>>(a: &A, b: &B) -> (r: bool)
    ensures
        r == same_item(a.arena_id(), a.position(), b.arena_id(), b.position()),
{
    let x = a.as_ptr();
    let y = b.as_ptr();
    x.arena == y.arena && x.index == y.index
}

/// Two references point to the same item: same arena, same position.
pub open spec fn same_item(arena_a: u64, pos_a: usize, arena_b: u64, pos_b: usize) -> bool {
    arena_a == arena_b && pos_a == pos_b
}

} // verus!
