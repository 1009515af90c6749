use vstd::prelude::*;
use crate::collection::arena::Arena;
use crate::collection::reference::Ref;
use crate::identity::SelfKeyed;

verus! {

/// Iterator over all items in an [`Arena`], in the order they were interned.
#[verifier::reject_recursive_types(T)]
pub struct ArenaIter<'a, T: SelfKeyed> {
    arena: &'a Arena<T>,
    pos: usize,
}

impl<'a, T: SelfKeyed> ArenaIter<'a, T> {
    /// The arena being walked.
    pub closed spec fn arena(&self) -> Arena<T> {
        *self.arena
    }

    /// How many items the iterator has handed out.
    pub closed spec fn position(&self) -> usize {
        self.pos
    }

    pub(crate) fn new(arena: &'a Arena<T>) -> (r: Self)
        ensures
            r.arena() == *arena,
            r.position() == 0,
    {
        ArenaIter { arena, pos: 0 }
    }

    /// The next item: a reference to the item at the iterator's position, which then
    /// moves on by one; `None` once every item has been handed out.
    pub fn next(&mut self) -> (r: Option<Ref<T>>)
        ensures
            final(self).arena() == old(self).arena(),
            old(self).position() < old(self).arena()@.len() ==> {
                &&& r matches Some(item)
                &&& item.spec_arena() == old(self).arena().id()
                &&& item.spec_index() == old(self).position()
                &&& item.value() == old(self).arena()@[old(self).position() as int]
                &&& item.link_value() == old(self).arena().link_value()
                &&& final(self).position() == old(self).position() + 1
            },
            old(self).position() >= old(self).arena()@.len() ==> {
                &&& r is None
                &&& final(self).position() == old(self).position()
            },
    {
        if self.pos < self.arena.len() {
            let item = self.arena.reference_at(self.pos);
            self.pos = self.pos + 1;
            Some(item)
        } else {
            None
        }
    }
}

} // verus!
