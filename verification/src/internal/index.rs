use vstd::prelude::*;
use crate::internal::hash::DefaultState;

verus! {

/// The most entries a table is asked to hold. Below it, an insertion never
/// overflows the capacity computation of the underlying `hashbrown` table: a table
/// that grows to hold `n` entries asks for fewer than `5 * n` buckets, each of at
/// most 33 bytes (a `(Vec<u64>, usize)` entry and its control byte), and `hashbrown`
/// refuses only a layout above `isize::MAX` bytes, which is more than
/// `256 * TABLE_LIMIT`.
pub const TABLE_LIMIT: usize = usize::MAX / 512;

/// Hash index from the identity of each item to its position, backed by a
/// `hashbrown::HashMap` with an `ahash` hasher.
#[verifier::external_body]
pub struct HashIndex {
    table: hashbrown::HashMap<Vec<u64>, usize, DefaultState>,
}

/// The entries of a `HashIndex`: identity to position.
pub uninterp spec fn index_entries(index: HashIndex) -> Map<Seq<u64>, usize>;

impl HashIndex {
    /// Creates an empty index (`hashbrown::HashMap::with_hasher`); it holds no entry.
    #[verifier::external_body]
    pub(crate) fn with_hasher(state: DefaultState) -> (r: HashIndex)
        ensures
            index_entries(r).dom() == Set::<Seq<u64>>::empty(),
    {
        HashIndex { table: hashbrown::HashMap::with_hasher(state) }
    }

    /// Bytes allocated by the table (`hashbrown::HashMap::allocation_size`): the size
    /// of the table's layout, which `hashbrown` never lets exceed `isize::MAX`. Its
    /// exact value depends on the capacity that was allocated and is not stated.
    #[verifier::external_body]
    pub(crate) fn allocation_size(&self) -> (r: usize)
        ensures
            r <= isize::MAX,
    {
        self.table.allocation_size()
    }

    /// Looks up the position stored for an identity (`hashbrown::HashMap::get`):
    /// the entry's value when the identity is present, `None` otherwise.
    #[verifier::external_body]
    pub(crate) fn get(&self, key: &[u64]) -> (r: Option<usize>)
        ensures
            r == (if index_entries(*self).contains_key(key@) {
                Some(index_entries(*self)[key@])
            } else {
                None::<usize>
            }),
    {
        self.table.get(key).copied()
    }

    /// Stores a position for an identity (`hashbrown::HashMap::insert`): afterwards the
    /// identity maps to `pos` and every other entry is unchanged; the previous value
    /// for the identity is returned.
    #[verifier::external_body]
    pub(crate) fn insert(&mut self, key: Vec<u64>, pos: usize) -> (r: Option<usize>)
        requires
            index_entries(*old(self)).len() < TABLE_LIMIT,
        ensures
            index_entries(*final(self)) == index_entries(*old(self)).insert(key@, pos),
            r == (if index_entries(*old(self)).contains_key(key@) {
                Some(index_entries(*old(self))[key@])
            } else {
                None::<usize>
            }),
    {
        self.table.insert(key, pos)
    }
}

} // verus!
