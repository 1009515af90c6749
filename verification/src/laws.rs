use vstd::prelude::*;
use crate::collection::arena;
use crate::collection::any_ref;
use crate::collection::reference::Ref;
use crate::collection::arena::Arena;
use crate::collection::strong::Strong;
use crate::collection::weak::Weak;
use crate::collection::secondary::{SecondaryMap, SecondarySet};
use crate::identity::{self, Identified, Identity, SelfKeyed};

verus! {

/// Interning never moves or changes the items already held: they stay a prefix of
/// the arena, so references handed out earlier still point at the same values.
pub proof fn lemma_intern_keeps_items<T: Identity>(items: Seq<T>, v: T)
    ensures
        arena::interned(items, arena::item_identity(v), v).len() >= items.len(),
        arena::interned(items, arena::item_identity(v), v).take(items.len() as int) == items,
{
    let after = arena::interned(items, arena::item_identity(v), v);
    assert(after.take(items.len() as int) =~= items);
}

/// Interning never takes an identity away: whatever the arena held before, it still
/// holds, at the same position; so `contains` stays true and `len` never drops.
pub proof fn lemma_intern_keeps_identities<T: Identity>(items: Seq<T>, v: T, id: Seq<u64>)
    requires
        arena::distinct_identities(items),
        arena::holds_identity(items, id),
    ensures
        arena::holds_identity(arena::interned(items, arena::item_identity(v), v), id),
        arena::position_of(arena::interned(items, arena::item_identity(v), v), id) == arena::position_of(items, id),
        arena::interned(items, arena::item_identity(v), v).len() >= items.len(),
{
    let after = arena::interned(items, arena::item_identity(v), v);
    let p: int = arena::position_of(items, id);
    assert(arena::identity_at(items, p) == id);
    lemma_intern_keeps_distinct(items, v);
    if !arena::holds_identity(items, arena::item_identity(v)) {
        assert(arena::identity_at(after, p) == arena::identity_at(items, p));
    }
    assert(arena::identity_at(after, p) == id);
    let q: int = arena::position_of(after, id);
    assert(arena::identity_at(after, q) == id);
}

/// After interning a value, the arena holds its identity, and finding that identity
/// gives the item that the interning referred to.
pub proof fn lemma_intern_then_find<T: Identity>(items: Seq<T>, v: T)
    requires
        arena::distinct_identities(items),
    ensures
        arena::holds_identity(arena::interned(items, arena::item_identity(v), v), arena::item_identity(v)),
        arena::position_of(arena::interned(items, arena::item_identity(v), v), arena::item_identity(v))
            == arena::interned_position(items, arena::item_identity(v)),
        arena::identity_at(
            arena::interned(items, arena::item_identity(v), v),
            arena::interned_position(items, arena::item_identity(v)),
        ) == arena::item_identity(v),
{
    let id = arena::item_identity(v);
    let after = arena::interned(items, id, v);
    let p: int = arena::interned_position(items, id);
    lemma_intern_keeps_distinct(items, v);
    if arena::holds_identity(items, id) {
        let q: int = arena::position_of(items, id);
        assert(arena::identity_at(items, q) == id);
    } else {
        assert(arena::identity_at(after, p) == id);
    }
    assert(arena::holds_identity(after, id));
    let q: int = arena::position_of(after, id);
    assert(arena::identity_at(after, q) == id);
}

/// Interning keeps every identity held at most once.
pub proof fn lemma_intern_keeps_distinct<T: Identity>(items: Seq<T>, v: T)
    requires
        arena::distinct_identities(items),
    ensures
        arena::distinct_identities(arena::interned(items, arena::item_identity(v), v)),
{
    let id = arena::item_identity(v);
    let after = arena::interned(items, id, v);
    if !arena::holds_identity(items, id) {
        assert forall|i: int, j: int|
            0 <= i < after.len() && 0 <= j < after.len() && i != j implies #[trigger] arena::identity_at(
            after,
            i,
        ) != #[trigger] arena::identity_at(after, j) by {
            if i < items.len() && j < items.len() {
                assert(arena::identity_at(after, i) == arena::identity_at(items, i));
                assert(arena::identity_at(after, j) == arena::identity_at(items, j));
            } else if i < items.len() {
                assert(arena::identity_at(after, i) == arena::identity_at(items, i));
                assert(arena::identity_at(after, j) == id);
            } else {
                assert(arena::identity_at(after, j) == arena::identity_at(items, j));
                assert(arena::identity_at(after, i) == id);
            }
        }
    }
}

/// Interning a value that is identical to one interned before gives the same item,
/// and leaves the arena unchanged.
pub proof fn lemma_intern_twice<T: Identity>(items: Seq<T>, v: T, w: T)
    requires
        arena::distinct_identities(items),
        arena::item_identity(v) == arena::item_identity(w),
    ensures
        arena::interned(arena::interned(items, arena::item_identity(v), v), arena::item_identity(w), w) == arena::interned(
            items,
            arena::item_identity(v),
            v,
        ),
        arena::interned_position(arena::interned(items, arena::item_identity(v), v), arena::item_identity(w))
            == arena::interned_position(items, arena::item_identity(v)),
{
    lemma_intern_then_find(items, v);
}

/// Interning two values of different identities gives two different items.
pub proof fn lemma_intern_distinct_values<T: Identity>(items: Seq<T>, v: T, w: T)
    requires
        arena::distinct_identities(items),
        arena::item_identity(v) != arena::item_identity(w),
    ensures
        arena::interned_position(arena::interned(items, arena::item_identity(v), v), arena::item_identity(w))
            != arena::interned_position(items, arena::item_identity(v)),
{
    let s1 = arena::interned(items, arena::item_identity(v), v);
    lemma_intern_then_find(items, v);
    lemma_intern_keeps_distinct(items, v);
    lemma_intern_then_find(s1, w);
}

/// The number of items grows by one exactly when the interned identity is new.
pub proof fn lemma_intern_len<T: Identity>(items: Seq<T>, v: T)
    ensures
        arena::interned(items, arena::item_identity(v), v).len() == items.len() + if arena::holds_identity(
            items,
            arena::item_identity(v),
        ) {
            0int
        } else {
            1int
        },
{
}

/// A value written to a secondary map under an item is what a later lookup of that
/// item gives back, and the lookups of all other items are unchanged.
pub proof fn lemma_secondary_read_write<T: SelfKeyed, V>(
    before: SecondaryMap<T, V>,
    after: SecondaryMap<T, V>,
    pos: usize,
    val: V,
)
    requires
        after.arena_id() == before.arena_id(),
        after@ == before@.insert(pos, val),
    ensures
        after.lookup(before.arena_id(), pos) == Some(val),
        forall|a: u64, p: usize|
            !(a == before.arena_id() && p == pos) ==> #[trigger] after.lookup(a, p) == before.lookup(a, p),
{
}

/// After an item is removed from a secondary map, a lookup of it finds nothing, and
/// the lookups of all other items are unchanged.
pub proof fn lemma_secondary_remove_read<T: SelfKeyed, V>(
    before: SecondaryMap<T, V>,
    after: SecondaryMap<T, V>,
    pos: usize,
)
    requires
        after.arena_id() == before.arena_id(),
        after@ == before@.remove(pos),
    ensures
        forall|a: u64| #[trigger] after.lookup(a, pos) is None,
        forall|a: u64, p: usize| p != pos ==> #[trigger] after.lookup(a, p) == before.lookup(a, p),
{
}

/// An item inserted into a secondary set is then found in it, and one removed is
/// not; membership of every other item is unchanged either way.
pub proof fn lemma_secondary_set_insert_remove<T: SelfKeyed>(
    before: SecondarySet<T>,
    inserted: SecondarySet<T>,
    removed: SecondarySet<T>,
    pos: usize,
)
    requires
        inserted.arena_id() == before.arena_id(),
        removed.arena_id() == before.arena_id(),
        inserted@ == before@.insert(pos),
        removed@ == before@.remove(pos),
    ensures
        inserted.member(before.arena_id(), pos),
        forall|a: u64| !#[trigger] removed.member(a, pos),
        forall|a: u64, p: usize|
            p != pos ==> #[trigger] inserted.member(a, p) == before.member(a, p) && removed.member(a, p)
                == before.member(a, p),
{
}

/// A `String` and a `&str` with the same text have the same identity, so an arena
/// of strings finds an item by either.
pub proof fn lemma_string_keys_agree(item: String, key: &str)
    requires
        item@ == key@,
    ensures
        item.identity() == <String as Identity<str>>::key_identity(key),
        <String as Identity>::key_identity(&item) == <String as Identity<str>>::key_identity(key),
        identity::text_identity(item@) == <String as Identity<str>>::key_identity(key),
{
}

/// Two different texts never share an item: their identities differ.
pub proof fn lemma_different_texts_different_identities(a: &str, b: &str)
    requires
        a@ != b@,
    ensures
        <String as Identity<str>>::key_identity(a) != <String as Identity<str>>::key_identity(b),
{
    if identity::text_identity(a@) == identity::text_identity(b@) {
        identity::lemma_text_identity_injective(a@, b@);
    }
}

/// `==` on references is the `is` test: both hold exactly for references to the same item.
pub proof fn lemma_eq_is_same_item<T>(a: Ref<T>, b: Ref<T>)
    ensures
        vstd::std_specs::cmp::PartialEqSpec::eq_spec(&a, &b) == any_ref::same_item(a.spec_arena(), a.spec_index(), b.spec_arena(), b.spec_index()),
{
}

/// Two integers, booleans or characters of one type have the same identity exactly
/// when they are equal: an arena of them holds each distinct value once, and never
/// merges two different values into one item. One law per type follows.

/// Values of `u8` have the same identity exactly when they are equal, and every
/// identity is short.
pub proof fn lemma_u8_identity_exact()
    ensures
        identity::exact_identities::<u8>(),
{
    assert forall|x: u8, y: u8| #[trigger] x.identity() == #[trigger] y.identity() implies x == y by {
        assert(x.identity()[0] == y.identity()[0]);
    }
}

/// Values of `u16` have the same identity exactly when they are equal, and every
/// identity is short.
pub proof fn lemma_u16_identity_exact()
    ensures
        identity::exact_identities::<u16>(),
{
    assert forall|x: u16, y: u16| #[trigger] x.identity() == #[trigger] y.identity() implies x == y by {
        assert(x.identity()[0] == y.identity()[0]);
    }
}

/// Values of `u32` have the same identity exactly when they are equal, and every
/// identity is short.
pub proof fn lemma_u32_identity_exact()
    ensures
        identity::exact_identities::<u32>(),
{
    assert forall|x: u32, y: u32| #[trigger] x.identity() == #[trigger] y.identity() implies x == y by {
        assert(x.identity()[0] == y.identity()[0]);
    }
}

/// Values of `u64` have the same identity exactly when they are equal, and every
/// identity is short.
pub proof fn lemma_u64_identity_exact()
    ensures
        identity::exact_identities::<u64>(),
{
    assert forall|x: u64, y: u64| #[trigger] x.identity() == #[trigger] y.identity() implies x == y by {
        assert(x.identity()[0] == y.identity()[0]);
    }
}

/// Values of `usize` have the same identity exactly when they are equal, and every
/// identity is short.
pub proof fn lemma_usize_identity_exact()
    ensures
        identity::exact_identities::<usize>(),
{
    assert forall|x: usize, y: usize| #[trigger] x.identity() == #[trigger] y.identity() implies x == y by {
        assert(x.identity()[0] == y.identity()[0]);
    }
}

/// Values of `i8` have the same identity exactly when they are equal, and every
/// identity is short.
pub proof fn lemma_i8_identity_exact()
    ensures
        identity::exact_identities::<i8>(),
{
    assert forall|x: i8, y: i8| #[trigger] x.identity() == #[trigger] y.identity() implies x == y by {
        assert(x.identity()[0] == y.identity()[0]);
    }
}

/// Values of `i16` have the same identity exactly when they are equal, and every
/// identity is short.
pub proof fn lemma_i16_identity_exact()
    ensures
        identity::exact_identities::<i16>(),
{
    assert forall|x: i16, y: i16| #[trigger] x.identity() == #[trigger] y.identity() implies x == y by {
        assert(x.identity()[0] == y.identity()[0]);
    }
}

/// Values of `i32` have the same identity exactly when they are equal, and every
/// identity is short.
pub proof fn lemma_i32_identity_exact()
    ensures
        identity::exact_identities::<i32>(),
{
    assert forall|x: i32, y: i32| #[trigger] x.identity() == #[trigger] y.identity() implies x == y by {
        assert(x.identity()[0] == y.identity()[0]);
    }
}

/// Values of `i64` have the same identity exactly when they are equal, and every
/// identity is short.
pub proof fn lemma_i64_identity_exact()
    ensures
        identity::exact_identities::<i64>(),
{
    assert forall|x: i64, y: i64| #[trigger] x.identity() == #[trigger] y.identity() implies x == y by {
        assert(x.identity()[0] == y.identity()[0]);
    }
}

/// Values of `isize` have the same identity exactly when they are equal, and every
/// identity is short.
pub proof fn lemma_isize_identity_exact()
    ensures
        identity::exact_identities::<isize>(),
{
    assert forall|x: isize, y: isize| #[trigger] x.identity() == #[trigger] y.identity() implies x == y by {
        assert(x.identity()[0] == y.identity()[0]);
    }
}

/// Values of `u128` have the same identity exactly when they are equal, and every
/// identity is short.
pub proof fn lemma_u128_identity_exact()
    ensures
        identity::exact_identities::<u128>(),
{
    assert forall|x: u128, y: u128| #[trigger] x.identity() == #[trigger] y.identity() implies x == y by {
        assert(x.identity()[0] == y.identity()[0]);
    }
}

/// Values of `i128` have the same identity exactly when they are equal, and every
/// identity is short.
pub proof fn lemma_i128_identity_exact()
    ensures
        identity::exact_identities::<i128>(),
{
    assert forall|x: i128, y: i128| #[trigger] x.identity() == #[trigger] y.identity() implies x == y by {
        assert(x.identity()[0] == y.identity()[0]);
    }
}

/// Values of `bool` have the same identity exactly when they are equal, and every
/// identity is short.
pub proof fn lemma_bool_identity_exact()
    ensures
        identity::exact_identities::<bool>(),
{
    assert forall|x: bool, y: bool| #[trigger] x.identity() == #[trigger] y.identity() implies x == y by {
        assert(x.identity()[0] == y.identity()[0]);
    }
}

/// Values of `char` have the same identity exactly when they are equal, and every
/// identity is short.
pub proof fn lemma_char_identity_exact()
    ensures
        identity::exact_identities::<char>(),
{
    assert forall|x: char, y: char| #[trigger] x.identity() == #[trigger] y.identity() implies x == y by {
        assert(x.identity()[0] == y.identity()[0]);
        vstd::utf8::char_u32_cast(x, x as u32);
        vstd::utf8::char_u32_cast(y, y as u32);
    }
}

/// Two strings have the same identity exactly when they hold the same text.
pub proof fn lemma_string_identity_exact(x: String, y: String)
    ensures
        (x.identity() == y.identity()) == (x@ == y@),
{
    if x.identity() == y.identity() {
        identity::lemma_text_identity_injective(x@, y@);
    }
}

/// A vector and a slice with the same items are the same key, so an arena of
/// vectors finds an item by either.
pub proof fn lemma_vec_slice_keys_agree<T: Identity>(item: Vec<T>, key: &[T])
    requires
        item@ == key@,
    ensures
        item.identity() == <Vec<T> as Identity<[T]>>::key_identity(key),
        <Vec<T> as Identity>::key_identity(&item) == <Vec<T> as Identity<[T]>>::key_identity(key),
{
}

/// A weak handle made from a reference into a well-formed arena upgrades against
/// that arena's own token and link, the allocations that the arena and its `Strong`
/// handles keep alive; so it is tied to the arena it came from, not to allocations of
/// its own.
pub proof fn lemma_weak_of_ref_targets_arena<T: SelfKeyed>(a: Arena<T>, r: Ref<T>, w: Weak<T>)
    requires
        a.wf(),
        r.link_value() == a.link_value(),
        w.link_target() == r.link_value(),
        w.token_target() == r.link_value().token_target(),
    ensures
        w.token_target() == a.token_value(),
        w.link_target() == a.link_value(),
{
    a.lemma_link_to_token();
}

} // verus!
