# bittern

A reference-counted arena for interning and deduplicating data, verified with Verus.

An `Arena<T>` holds each distinct item once. Interning a value returns a reference
to the item with the same identity if the arena already holds one, and appends the
value otherwise. References come in three kinds:

- `Ref<T>`: a plain reference to an item, not counted among the arena's owners;
- `Strong<T>`: counted among the owners; keeps its own item alive, and keeps the
  arena's owner count (which a `Weak` upgrades against) above zero;
- `Weak<T>`: upgrades to a `Strong<T>` only while an owner of the arena (the arena,
  one of its `Strong` handles or one of its secondary collections) is alive. This
  rests on `std::rc` and is not part of any contract: `Weak::upgraded` states what
  an upgrade gives for each outcome of the two pointer upgrades.

Two references are `is` the same item exactly when they point into the same arena
at the same position. `SecondaryMap` and `SecondarySet` associate values with the
items of one arena.

## Layout

- `src/identity.rs`: the `Identified` and `Identity` traits (the identity of a value is a sequence of
  words; equal identities mean the same entity; an arena indexes each item by the
  identity it stands for as a key of its own type, which `SelfKeyed` ties to the
  item's identity) and their implementations for
  integers, `bool`, `char`, text, slices, vectors and arrays.
- `src/collection/`: the arena, its references, entries, iterator and secondary
  collections.
- `src/internal/`: the hash tables (`hashbrown` with an `ahash` hasher), the
  reference-counted tokens behind the arena, and the storage of items (whose
  destructor runs or not, as the arena's config says). Each call into them sits behind a
  trusted wrapper whose `requires` and `ensures` Verus takes without proof; its doc
  comment says what that contract claims of the outside function.
- `src/laws.rs`: properties of interning and of the secondary collections that span
  several operations.
- `tests/`: scenarios on concrete values.
