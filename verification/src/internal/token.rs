use vstd::prelude::*;
use std::rc::Rc;
use crate::internal::hash::{default_state, DefaultState};

verus! {

/// The allocation whose strong count is the number of owners of an arena:
/// the arena itself, its `Strong` handles and its secondary collections.
///
/// Its `nonce` is a hash state drawn afresh for each token. Nothing shows two drawn
/// states equal, so one arena's token is a value of its own: a token made anew is
/// never shown to be the token of an existing arena.
pub struct ArenaToken {
    pub(crate) nonce: DefaultState,
}

impl ArenaToken {
    /// A new token, not shared with any arena yet.
    pub(crate) fn fresh() -> Rc<ArenaToken> {
        Rc::new(ArenaToken { nonce: default_state() })
    }
}

/// Shared by an arena, its `Ref` and `Strong` handles: lets a `Ref` make new
/// handles without being counted itself. It holds one weak pointer to the token,
/// so the token's strong count is the number of owners alone.
pub struct ArenaLink {
    token: WeakPtr<ArenaToken>,
}

/// The value that a strong pointer points to.
pub open spec fn pointee<T>(rc: &Rc<T>) -> T {
    **rc
}

/// A weak pointer to a shared allocation, together with the value of the strong
/// pointer that it was made from. It is made only by downgrading a strong pointer or
/// by cloning another one, so `target` is the value of the allocation it points to.
#[verifier::reject_recursive_types(T)]
pub struct WeakPtr<T> {
    weak: RcWeak<T>,
    target: Ghost<T>,
}

impl<T> WeakPtr<T> {
    /// The value of the allocation that the pointer points to.
    pub closed spec fn target(&self) -> T {
        self.target@
    }

    /// A weak pointer to the allocation of `rc`.
    pub fn downgrade(rc: &Rc<T>) -> (r: Self)
        ensures
            r.target() == **rc,
    {
        WeakPtr { weak: rc_downgrade(rc), target: Ghost(pointee(rc)) }
    }

    /// Another weak pointer to the same allocation.
    pub fn clone_ptr(&self) -> (r: Self)
        ensures
            r.target() == self.target(),
    {
        let ghost value: T = self.target@;
        WeakPtr { weak: rc_weak_clone(&self.weak), target: Ghost(value) }
    }

    /// A strong pointer to the allocation, if it is still alive.
    pub fn upgrade(&self) -> Option<Rc<T>> {
        rc_upgrade(&self.weak)
    }
}

impl ArenaLink {
    /// The token that the link points to.
    pub closed spec fn token_target(&self) -> ArenaToken {
        self.token.target()
    }

    /// A link that points to `token`.
    pub(crate) fn new(token: &Rc<ArenaToken>) -> (r: Rc<ArenaLink>)
        ensures
            r.token_target() == **token,
    {
        Rc::new(ArenaLink { token: WeakPtr::downgrade(token) })
    }

    /// Another weak pointer to the token that the link points to.
    pub(crate) fn token_ptr(&self) -> (r: WeakPtr<ArenaToken>)
        ensures
            r.target() == self.token_target(),
    {
        self.token.clone_ptr()
    }

    /// A strong pointer to the token, if it is still alive.
    pub(crate) fn upgrade_token(&self) -> Option<Rc<ArenaToken>> {
        self.token.upgrade()
    }
}

impl core::hash::Hash for ArenaLink {
    /// A link adds nothing to the hash of the handle that holds it.
    fn hash<H: core::hash::Hasher>(&self, _state: &mut H) {
    }
}

/// A weak pointer (`std::rc::Weak`) to a shared allocation.
///
/// `std::rc::Weak` carries an allocator parameter whose bound cannot be named here,
/// so it is held in this opaque wrapper; Verus sees nothing inside it.
#[verifier::external_body]
#[verifier::reject_recursive_types(T)]
pub struct RcWeak<T> {
    weak: std::rc::Weak<T>,
}

/// Another pointer to the same allocation (`Rc::clone`): it has the same value.
#[verifier::external_body]
pub fn rc_clone<T>(rc: &Rc<T>) -> (r: Rc<T>)
    ensures
        r == *rc,
{
    Rc::clone(rc)
}

/// The number of strong pointers to the allocation (`Rc::strong_count`).
/// Only that `rc` itself is one of them is stated.
#[verifier::external_body]
pub fn rc_strong_count<T>(rc: &Rc<T>) -> (n: usize)
    ensures
        n >= 1,
{
    Rc::strong_count(rc)
}

/// The number of weak pointers to the allocation (`Rc::weak_count`).
/// Nothing is stated of it: it depends on the pointers that are alive.
#[verifier::external_body]
pub fn rc_weak_count<T>(rc: &Rc<T>) -> usize {
    Rc::weak_count(rc)
}

/// The number of `Weak` handles to an arena whose token has `token_weak` weak
/// pointers: all of them but the one that the arena's link holds.
pub fn weak_handles(token_weak: usize) -> (r: usize)
    ensures
        r == if token_weak == 0 { 0 } else { token_weak - 1 },
{
    if token_weak == 0 {
        0
    } else {
        token_weak - 1
    }
}

/// The address of the allocation (`Rc::as_ptr`), as a number. Nothing is stated
/// of it; it differs between allocations that are alive at the same time.
#[verifier::external_body]
pub fn rc_address<T>(rc: &Rc<T>) -> u64 {
    Rc::as_ptr(rc) as usize as u64
}

/// A weak pointer to the allocation (`Rc::downgrade`).
#[verifier::external_body]
pub fn rc_downgrade<T>(rc: &Rc<T>) -> RcWeak<T> {
    RcWeak { weak: Rc::downgrade(rc) }
}

/// Another weak pointer to the same allocation (`std::rc::Weak::clone`).
#[verifier::external_body]
pub fn rc_weak_clone<T>(w: &RcWeak<T>) -> RcWeak<T> {
    RcWeak { weak: std::rc::Weak::clone(&w.weak) }
}

/// A strong pointer to the allocation if it is still alive (`std::rc::Weak::upgrade`).
/// Nothing is stated of the result: it depends on the pointers that are alive.
#[verifier::external_body]
pub fn rc_upgrade<T>(w: &RcWeak<T>) -> Option<Rc<T>> {
    w.weak.upgrade()
}

} // verus!
