use vstd::prelude::*;

verus! {

#[verifier::external_type_specification]
#[verifier::external_body]
pub struct ExRandomState(ahash::RandomState);

/// The hasher state used by the arena's indexes.
pub type DefaultState = ahash::RandomState;

/// Creates a hasher state with fresh random keys (`ahash::RandomState::new`).
/// Nothing is stated of the state: its keys are chosen at random.
#[verifier::external_body]
pub fn default_state() -> DefaultState {
    ahash::RandomState::new()
}

/// Hashes a sequence of words with the hasher that `state` builds
/// (`ahash::RandomState::hash_one`). Nothing is stated of the result: it depends
/// on the random keys of `state`.
#[verifier::external_body]
pub fn core_hash(key: &[u64], state: &DefaultState) -> u64 {
    state.hash_one(key)
}

/// Feeds a word to a hasher (`<u64 as Hash>::hash`). Nothing is stated of the hasher
/// afterwards.
#[verifier::external_body]
pub fn hash_word<H: core::hash::Hasher>(word: u64, state: &mut H) {
    core::hash::Hash::hash(&word, state)
}

/// Feeds a position to a hasher (`<usize as Hash>::hash`). Nothing is stated of the
/// hasher afterwards.
#[verifier::external_body]
pub fn hash_position<H: core::hash::Hasher>(position: usize, state: &mut H) {
    core::hash::Hash::hash(&position, state)
}

} // verus!
