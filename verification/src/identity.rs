use vstd::prelude::*;
use crate::internal::hash::{core_hash, DefaultState};

verus! {

/// A value with an identity.
///
/// The identity of a value is a sequence of words: two values stand for the same
/// entity if and only if their identities are equal. A type has one identity, which
/// every `Identity` impl of the type compares keys against.
pub trait Identified {
    /// The identity of a value of this type.
    spec fn identity(&self) -> Seq<u64>;

    /// Provides the identity of the value, as an owned sequence of words.
    fn identity_words(&self) -> (r: Vec<u64>)
        ensures
            r@ == self.identity(),
    ;
}

/// Minimum requirements for indexing items by a key type (or `Self`).
///
/// Represents a notion of "identity", which may differ from structural equality.
/// A key of type `K` stands for the identity `key_identity(key)`; an item and a key
/// are equivalent when the item's identity is that identity. `Arena` indexes each
/// item by the identity that the item stands for as a key of its own type (the
/// `Identity<Self>` impl), and interns values to the same item exactly when those
/// identities are equal. An arena's item type is also [`SelfKeyed`]: that index is
/// the item's identity, so the items that an arena finds for a key are the ones
/// equivalent to it.
pub trait Identity<K: ?Sized = Self>: Identified {
    /// The identity that a lookup key stands for.
    spec fn key_identity(key: &K) -> Seq<u64>;

    /// Tests if values represent the same entity.
    ///
    /// Values are equivalent if and only if they have the same index.
    fn equivalent(&self, other: &K) -> (r: bool)
        ensures
            r == (self.identity() == Self::key_identity(other)),
    ;

    /// Provides the index of each key: its identity, as an owned sequence of words.
    fn index(key: &K) -> (r: Vec<u64>)
        ensures
            r@ == Self::key_identity(key),
    ;

    /// Hashes a key's index with the hasher that `state` builds.
    fn hash(key: &K, state: &DefaultState) -> u64 {
        let words = Self::index(key);
        core_hash(words.as_slice(), state)
    }
}

/// An item type whose values, used as keys of their own type, stand for exactly
/// their identity. An arena indexes an item by its key identity and `equivalent`
/// compares identities, so for such a type the two agree: a value is equivalent to
/// itself, and an item found for a key is equivalent to that key.
pub trait SelfKeyed: Identity {
    /// A value's key identity is its identity.
    proof fn lemma_self_key(x: &Self)
        ensures
            <Self as Identity>::key_identity(x) == x.identity(),
    ;
}

/// Compares two word sequences.
pub fn words_equal(a: &[u64], b: &[u64]) -> (r: bool)
    ensures
        r == (a@ == b@),
{
    if a.len() != b.len() {
        return false;
    }
    let mut i: usize = 0;
    while i < a.len()
        invariant
            a@.len() == b@.len(),
            i <= a@.len(),
            forall|j: int| 0 <= j < i ==> a@[j] == b@[j],
        decreases a@.len() - i,
    {
        if a[i] != b[i] {
            return false;
        }
        i = i + 1;
    }
    assert(a@ =~= b@);
    true
}

/// The identity of a text: its UTF-8 encoding, one word per byte.
pub open spec fn text_identity(s: Seq<char>) -> Seq<u64> {
    vstd::utf8::encode_utf8(s).map_values(|b: u8| b as u64)
}

/// Different texts have different identities.
pub proof fn lemma_text_identity_injective(a: Seq<char>, b: Seq<char>)
    requires
        text_identity(a) == text_identity(b),
    ensures
        a == b,
{
    let ea = vstd::utf8::encode_utf8(a);
    let eb = vstd::utf8::encode_utf8(b);
    assert(text_identity(a).len() == ea.len());
    assert(text_identity(b).len() == eb.len());
    assert forall|i: int| 0 <= i < ea.len() implies ea[i] == eb[i] by {
        assert(text_identity(a)[i] == ea[i] as u64);
        assert(text_identity(b)[i] == eb[i] as u64);
    }
    assert(ea =~= eb);
    vstd::utf8::encode_utf8_decode_utf8(a);
    vstd::utf8::encode_utf8_decode_utf8(b);
}

/// Computes the identity of a text.
pub fn str_identity(s: &str) -> (r: Vec<u64>)
    ensures
        r@ == text_identity(s@),
{
    let bytes = s.as_bytes();
    let mut out: Vec<u64> = Vec::new();
    let mut i: usize = 0;
    while i < bytes.len()
        invariant
            i <= bytes@.len(),
            bytes@ == vstd::utf8::encode_utf8(s@),
            out@ =~= bytes@.take(i as int).map_values(|b: u8| b as u64),
        decreases bytes@.len() - i,
    {
        out.push(bytes[i] as u64);
        i = i + 1;
        assert(out@ =~= bytes@.take(i as int).map_values(|b: u8| b as u64));
    }
    assert(bytes@.take(i as int) =~= bytes@);
    out
}

/// The identity of a sequence of items: each item's identity, preceded by its length.
pub open spec fn seq_identity<T: Identity>(s: Seq<T>) -> Seq<u64>
    decreases s.len(),
{
    if s.len() == 0 {
        Seq::empty()
    } else {
        let last = s.last().identity();
        seq_identity(s.drop_last()) + seq![last.len() as u64] + last
    }
}

/// Every value of the type has an identity of its own, of fewer than 2^64 words.
pub open spec fn exact_identities<T: Identified>() -> bool {
    &&& forall|x: T, y: T| #[trigger] x.identity() == #[trigger] y.identity() ==> x == y
    &&& forall|x: T| #[trigger] x.identity().len() <= u64::MAX
}

/// The identity of a non-empty sequence read from the front: the first item's
/// length and identity, then the identity of the rest.
pub proof fn lemma_seq_identity_front<T: Identity>(s: Seq<T>)
    requires
        s.len() > 0,
    ensures
        seq_identity(s) == seq![s[0].identity().len() as u64] + s[0].identity() + seq_identity(
            s.drop_first(),
        ),
    decreases s.len(),
{
    let first = s[0].identity();
    if s.len() == 1 {
        assert(s.drop_last() =~= Seq::<T>::empty());
        assert(s.drop_first() =~= Seq::<T>::empty());
        assert(seq_identity(s) =~= seq![first.len() as u64] + first + seq_identity(s.drop_first()));
    } else {
        let init = s.drop_last();
        lemma_seq_identity_front(init);
        let last = s.last().identity();
        let rest = s.drop_first();
        assert(init.drop_first() =~= rest.drop_last());
        assert(init[0] == s[0]);
        assert(rest.last() == s.last());
        assert(seq_identity(rest) == seq_identity(rest.drop_last()) + seq![last.len() as u64] + last);
        assert(seq_identity(s) =~= seq![first.len() as u64] + first + seq_identity(rest));
    }
}

/// Sequences of items whose identities are exact have the same identity exactly
/// when they hold the same items.
pub proof fn lemma_seq_identity_exact<T: Identity>(a: Seq<T>, b: Seq<T>)
    requires
        exact_identities::<T>(),
    ensures
        (seq_identity(a) == seq_identity(b)) == (a == b),
    decreases a.len(),
{
    if seq_identity(a) == seq_identity(b) {
        if a.len() == 0 {
            if b.len() > 0 {
                lemma_seq_identity_front(b);
                assert(seq_identity(b).len() > 0);
            }
            assert(b =~= a);
        } else if b.len() == 0 {
            lemma_seq_identity_front(a);
            assert(seq_identity(a).len() > 0);
        } else {
            lemma_seq_identity_front(a);
            lemma_seq_identity_front(b);
            let ia = a[0].identity();
            let ib = b[0].identity();
            let sa = seq_identity(a);
            assert(sa[0] == ia.len() as u64);
            assert(seq_identity(b)[0] == ib.len() as u64);
            assert(ia.len() <= u64::MAX);
            assert(ib.len() <= u64::MAX);
            assert(ia.len() == ib.len());
            let n = ia.len() as int;
            assert(sa.subrange(1, n + 1) =~= ia);
            assert(seq_identity(b).subrange(1, n + 1) =~= ib);
            assert(a[0] == b[0]);
            assert(sa.subrange(n + 1, sa.len() as int) =~= seq_identity(a.drop_first()));
            assert(seq_identity(b).subrange(n + 1, sa.len() as int) =~= seq_identity(b.drop_first()));
            lemma_seq_identity_exact(a.drop_first(), b.drop_first());
            assert(a =~= seq![a[0]] + a.drop_first());
            assert(b =~= seq![b[0]] + b.drop_first());
        }
    }
}

/// Computes the identity of a slice of items.
pub fn slice_identity<T: Identity>(s: &[T]) -> (r: Vec<u64>)
    ensures
        r@ == seq_identity(s@),
{
    let mut out: Vec<u64> = Vec::new();
    let mut i: usize = 0;
    while i < s.len()
        invariant
            i <= s@.len(),
            out@ == seq_identity(s@.take(i as int)),
        decreases s@.len() - i,
    {
        let mut item = s[i].identity_words();
        let n: u64 = item.len() as u64;
        out.push(n);
        out.append(&mut item);
        proof {
            let t = s@.take(i + 1);
            assert(t.drop_last() =~= s@.take(i as int));
            assert(t.last() == s@[i as int]);
        }
        i = i + 1;
    }
    assert(s@.take(i as int) =~= s@);
    out
}

impl Identified for String {
    open spec fn identity(&self) -> Seq<u64> {
        text_identity(self@)
    }

    fn identity_words(&self) -> (r: Vec<u64>) {
        str_identity(self.as_str())
    }
}

impl Identity for String {
    open spec fn key_identity(key: &String) -> Seq<u64> {
        text_identity(key@)
    }

    fn equivalent(&self, other: &String) -> (r: bool) {
        let a = str_identity(self.as_str());
        let b = str_identity(other.as_str());
        words_equal(a.as_slice(), b.as_slice())
    }

    fn index(key: &String) -> (r: Vec<u64>) {
        assert(Self::key_identity(key) == text_identity(key@));
        str_identity(key.as_str())
    }
}

impl Identity<str> for String {
    open spec fn key_identity(key: &str) -> Seq<u64> {
        text_identity(key@)
    }

    fn equivalent(&self, other: &str) -> (r: bool) {
        let a = str_identity(self.as_str());
        let b = str_identity(other);
        words_equal(a.as_slice(), b.as_slice())
    }

    fn index(key: &str) -> (r: Vec<u64>) {
        assert(Self::key_identity(key) == text_identity(key@));
        str_identity(key)
    }
}

impl Identified for str {
    open spec fn identity(&self) -> Seq<u64> {
        text_identity(self@)
    }

    fn identity_words(&self) -> (r: Vec<u64>) {
        str_identity(self)
    }
}

impl Identity for str {
    open spec fn key_identity(key: &str) -> Seq<u64> {
        text_identity(key@)
    }

    fn equivalent(&self, other: &str) -> (r: bool) {
        let a = str_identity(self);
        let b = str_identity(other);
        words_equal(a.as_slice(), b.as_slice())
    }

    fn index(key: &str) -> (r: Vec<u64>) {
        assert(Self::key_identity(key) == text_identity(key@));
        str_identity(key)
    }
}

impl<T: Identity> Identified for [T] {
    open spec fn identity(&self) -> Seq<u64> {
        seq_identity(self@)
    }

    fn identity_words(&self) -> (r: Vec<u64>) {
        slice_identity(self)
    }
}

impl<T: Identity> Identity for [T] {
    open spec fn key_identity(key: &[T]) -> Seq<u64> {
        seq_identity(key@)
    }

    fn equivalent(&self, other: &[T]) -> (r: bool) {
        let a = slice_identity(self);
        let b = slice_identity(other);
        words_equal(a.as_slice(), b.as_slice())
    }

    fn index(key: &[T]) -> (r: Vec<u64>) {
        assert(Self::key_identity(key) == seq_identity(key@));
        slice_identity(key)
    }
}

impl<T: Identity> Identified for Vec<T> {
    open spec fn identity(&self) -> Seq<u64> {
        seq_identity(self@)
    }

    fn identity_words(&self) -> (r: Vec<u64>) {
        slice_identity(self.as_slice())
    }
}

impl<T: Identity> Identity for Vec<T> {
    open spec fn key_identity(key: &Vec<T>) -> Seq<u64> {
        seq_identity(key@)
    }

    fn equivalent(&self, other: &Vec<T>) -> (r: bool) {
        let a = slice_identity(self.as_slice());
        let b = slice_identity(other.as_slice());
        words_equal(a.as_slice(), b.as_slice())
    }

    fn index(key: &Vec<T>) -> (r: Vec<u64>) {
        assert(Self::key_identity(key) == seq_identity(key@));
        slice_identity(key.as_slice())
    }
}

impl<T: Identity> Identity<[T]> for Vec<T> {
    open spec fn key_identity(key: &[T]) -> Seq<u64> {
        seq_identity(key@)
    }

    fn equivalent(&self, other: &[T]) -> (r: bool) {
        let a = slice_identity(self.as_slice());
        let b = slice_identity(other);
        words_equal(a.as_slice(), b.as_slice())
    }

    fn index(key: &[T]) -> (r: Vec<u64>) {
        assert(Self::key_identity(key) == seq_identity(key@));
        slice_identity(key)
    }
}

impl<T: Identity, const N: usize> Identified for [T; N] {
    open spec fn identity(&self) -> Seq<u64> {
        seq_identity(self@)
    }

    fn identity_words(&self) -> (r: Vec<u64>) {
        slice_identity(self.as_slice())
    }
}

impl<T: Identity, const N: usize> Identity for [T; N] {
    open spec fn key_identity(key: &[T; N]) -> Seq<u64> {
        seq_identity(key@)
    }

    fn equivalent(&self, other: &[T; N]) -> (r: bool) {
        let a = slice_identity(self.as_slice());
        let b = slice_identity(other.as_slice());
        words_equal(a.as_slice(), b.as_slice())
    }

    fn index(key: &[T; N]) -> (r: Vec<u64>) {
        assert(Self::key_identity(key) == seq_identity(key@));
        slice_identity(key.as_slice())
    }
}

/// A vector holding one word.
fn single_word(w: u64) -> (r: Vec<u64>)
    ensures
        r@ == seq![w],
{
    let mut v: Vec<u64> = Vec::new();
    v.push(w);
    v
}

/// A vector holding two words.
fn two_words(a: u64, b: u64) -> (r: Vec<u64>)
    ensures
        r@ == seq![a, b],
{
    let mut v: Vec<u64> = Vec::new();
    v.push(a);
    v.push(b);
    v
}

impl Identified for bool {
    open spec fn identity(&self) -> Seq<u64> {
        seq![if *self { 1u64 } else { 0u64 }]
    }

    fn identity_words(&self) -> (r: Vec<u64>) {
        single_word(if *self { 1u64 } else { 0u64 })
    }
}

impl Identity for bool {
    open spec fn key_identity(key: &bool) -> Seq<u64> {
        seq![if *key { 1u64 } else { 0u64 }]
    }

    fn equivalent(&self, other: &bool) -> (r: bool) {
        assert(self.identity() == Self::key_identity(other) ==> self.identity()[0] == Self::key_identity(other)[0]);
        *self == *other
    }

    fn index(key: &bool) -> (r: Vec<u64>) {
        assert(Self::key_identity(key) == seq![if *key { 1u64 } else { 0u64 }]);
        single_word(if *key { 1u64 } else { 0u64 })
    }
}

impl Identified for char {
    open spec fn identity(&self) -> Seq<u64> {
        seq![(*self as u32) as u64]
    }

    fn identity_words(&self) -> (r: Vec<u64>) {
        single_word((*self as u32) as u64)
    }
}

impl Identity for char {
    open spec fn key_identity(key: &char) -> Seq<u64> {
        seq![(*key as u32) as u64]
    }

    fn equivalent(&self, other: &char) -> (r: bool) {
        proof {
            vstd::utf8::char_u32_cast(*self, *self as u32);
            vstd::utf8::char_u32_cast(*other, *other as u32);
        }
        assert(self.identity() == Self::key_identity(other) ==> self.identity()[0] == Self::key_identity(other)[0]);
        *self == *other
    }

    fn index(key: &char) -> (r: Vec<u64>) {
        assert(Self::key_identity(key) == seq![(*key as u32) as u64]);
        single_word((*key as u32) as u64)
    }
}

/// The word that stands for a signed integer of at most 64 bits: its offset from `i64::MIN`.
pub open spec fn signed_word(x: int) -> u64 {
    (x - i64::MIN) as u64
}

/// Computes the word that stands for a signed integer.
fn signed_to_word(x: i64) -> (r: u64)
    ensures
        r == signed_word(x as int),
{
    ((x as i128) - (i64::MIN as i128)) as u64
}

/// The two words that stand for a 128-bit unsigned integer: its high and low halves.
pub open spec fn wide_words(x: int) -> Seq<u64> {
    seq![(x / 0x1_0000_0000_0000_0000) as u64, (x % 0x1_0000_0000_0000_0000) as u64]
}

/// Computes the two words that stand for a 128-bit unsigned integer.
fn wide_to_words(x: u128) -> (r: Vec<u64>)
    ensures
        r@ == wide_words(x as int),
{
    two_words((x / 0x1_0000_0000_0000_0000u128) as u64, (x % 0x1_0000_0000_0000_0000u128) as u64)
}

/// Lemma: the halves of a 128-bit value determine it.
proof fn lemma_wide_words_injective(x: int, y: int)
    requires
        0 <= x < 0x1_0000_0000_0000_0000_0000_0000_0000_0000,
        0 <= y < 0x1_0000_0000_0000_0000_0000_0000_0000_0000,
        wide_words(x) == wide_words(y),
    ensures
        x == y,
{
    assert(wide_words(x)[0] == wide_words(y)[0]);
    assert(wide_words(x)[1] == wide_words(y)[1]);
    assert(x == (x / 0x1_0000_0000_0000_0000) * 0x1_0000_0000_0000_0000 + x % 0x1_0000_0000_0000_0000);
    assert(y == (y / 0x1_0000_0000_0000_0000) * 0x1_0000_0000_0000_0000 + y % 0x1_0000_0000_0000_0000);
}

impl Identified for u8 {
    open spec fn identity(&self) -> Seq<u64> {
        seq![*self as u64]
    }

    fn identity_words(&self) -> (r: Vec<u64>) {
        single_word(*self as u64)
    }
}

impl Identity for u8 {
    open spec fn key_identity(key: &u8) -> Seq<u64> {
        seq![*key as u64]
    }

    fn equivalent(&self, other: &u8) -> (r: bool) {
        assert(self.identity() == Self::key_identity(other) ==> self.identity()[0] == Self::key_identity(other)[0]);
        *self == *other
    }

    fn index(key: &u8) -> (r: Vec<u64>) {
        assert(Self::key_identity(key) == seq![*key as u64]);
        single_word(*key as u64)
    }
}

impl Identified for u16 {
    open spec fn identity(&self) -> Seq<u64> {
        seq![*self as u64]
    }

    fn identity_words(&self) -> (r: Vec<u64>) {
        single_word(*self as u64)
    }
}

impl Identity for u16 {
    open spec fn key_identity(key: &u16) -> Seq<u64> {
        seq![*key as u64]
    }

    fn equivalent(&self, other: &u16) -> (r: bool) {
        assert(self.identity() == Self::key_identity(other) ==> self.identity()[0] == Self::key_identity(other)[0]);
        *self == *other
    }

    fn index(key: &u16) -> (r: Vec<u64>) {
        assert(Self::key_identity(key) == seq![*key as u64]);
        single_word(*key as u64)
    }
}

impl Identified for u32 {
    open spec fn identity(&self) -> Seq<u64> {
        seq![*self as u64]
    }

    fn identity_words(&self) -> (r: Vec<u64>) {
        single_word(*self as u64)
    }
}

impl Identity for u32 {
    open spec fn key_identity(key: &u32) -> Seq<u64> {
        seq![*key as u64]
    }

    fn equivalent(&self, other: &u32) -> (r: bool) {
        assert(self.identity() == Self::key_identity(other) ==> self.identity()[0] == Self::key_identity(other)[0]);
        *self == *other
    }

    fn index(key: &u32) -> (r: Vec<u64>) {
        assert(Self::key_identity(key) == seq![*key as u64]);
        single_word(*key as u64)
    }
}

impl Identified for u64 {
    open spec fn identity(&self) -> Seq<u64> {
        seq![*self as u64]
    }

    fn identity_words(&self) -> (r: Vec<u64>) {
        single_word(*self as u64)
    }
}

impl Identity for u64 {
    open spec fn key_identity(key: &u64) -> Seq<u64> {
        seq![*key as u64]
    }

    fn equivalent(&self, other: &u64) -> (r: bool) {
        assert(self.identity() == Self::key_identity(other) ==> self.identity()[0] == Self::key_identity(other)[0]);
        *self == *other
    }

    fn index(key: &u64) -> (r: Vec<u64>) {
        assert(Self::key_identity(key) == seq![*key as u64]);
        single_word(*key as u64)
    }
}

impl Identified for usize {
    open spec fn identity(&self) -> Seq<u64> {
        seq![*self as u64]
    }

    fn identity_words(&self) -> (r: Vec<u64>) {
        single_word(*self as u64)
    }
}

impl Identity for usize {
    open spec fn key_identity(key: &usize) -> Seq<u64> {
        seq![*key as u64]
    }

    fn equivalent(&self, other: &usize) -> (r: bool) {
        assert(self.identity() == Self::key_identity(other) ==> self.identity()[0] == Self::key_identity(other)[0]);
        *self == *other
    }

    fn index(key: &usize) -> (r: Vec<u64>) {
        assert(Self::key_identity(key) == seq![*key as u64]);
        single_word(*key as u64)
    }
}

impl Identified for i8 {
    open spec fn identity(&self) -> Seq<u64> {
        seq![signed_word(*self as int)]
    }

    fn identity_words(&self) -> (r: Vec<u64>) {
        single_word(signed_to_word(*self as i64))
    }
}

impl Identity for i8 {
    open spec fn key_identity(key: &i8) -> Seq<u64> {
        seq![signed_word(*key as int)]
    }

    fn equivalent(&self, other: &i8) -> (r: bool) {
        assert(self.identity() == Self::key_identity(other) ==> self.identity()[0] == Self::key_identity(other)[0]);
        *self == *other
    }

    fn index(key: &i8) -> (r: Vec<u64>) {
        assert(Self::key_identity(key) == seq![signed_word(*key as int)]);
        single_word(signed_to_word(*key as i64))
    }
}

impl Identified for i16 {
    open spec fn identity(&self) -> Seq<u64> {
        seq![signed_word(*self as int)]
    }

    fn identity_words(&self) -> (r: Vec<u64>) {
        single_word(signed_to_word(*self as i64))
    }
}

impl Identity for i16 {
    open spec fn key_identity(key: &i16) -> Seq<u64> {
        seq![signed_word(*key as int)]
    }

    fn equivalent(&self, other: &i16) -> (r: bool) {
        assert(self.identity() == Self::key_identity(other) ==> self.identity()[0] == Self::key_identity(other)[0]);
        *self == *other
    }

    fn index(key: &i16) -> (r: Vec<u64>) {
        assert(Self::key_identity(key) == seq![signed_word(*key as int)]);
        single_word(signed_to_word(*key as i64))
    }
}

impl Identified for i32 {
    open spec fn identity(&self) -> Seq<u64> {
        seq![signed_word(*self as int)]
    }

    fn identity_words(&self) -> (r: Vec<u64>) {
        single_word(signed_to_word(*self as i64))
    }
}

impl Identity for i32 {
    open spec fn key_identity(key: &i32) -> Seq<u64> {
        seq![signed_word(*key as int)]
    }

    fn equivalent(&self, other: &i32) -> (r: bool) {
        assert(self.identity() == Self::key_identity(other) ==> self.identity()[0] == Self::key_identity(other)[0]);
        *self == *other
    }

    fn index(key: &i32) -> (r: Vec<u64>) {
        assert(Self::key_identity(key) == seq![signed_word(*key as int)]);
        single_word(signed_to_word(*key as i64))
    }
}

impl Identified for i64 {
    open spec fn identity(&self) -> Seq<u64> {
        seq![signed_word(*self as int)]
    }

    fn identity_words(&self) -> (r: Vec<u64>) {
        single_word(signed_to_word(*self as i64))
    }
}

impl Identity for i64 {
    open spec fn key_identity(key: &i64) -> Seq<u64> {
        seq![signed_word(*key as int)]
    }

    fn equivalent(&self, other: &i64) -> (r: bool) {
        assert(self.identity() == Self::key_identity(other) ==> self.identity()[0] == Self::key_identity(other)[0]);
        *self == *other
    }

    fn index(key: &i64) -> (r: Vec<u64>) {
        assert(Self::key_identity(key) == seq![signed_word(*key as int)]);
        single_word(signed_to_word(*key as i64))
    }
}

impl Identified for isize {
    open spec fn identity(&self) -> Seq<u64> {
        seq![signed_word(*self as int)]
    }

    fn identity_words(&self) -> (r: Vec<u64>) {
        single_word(signed_to_word(*self as i64))
    }
}

impl Identity for isize {
    open spec fn key_identity(key: &isize) -> Seq<u64> {
        seq![signed_word(*key as int)]
    }

    fn equivalent(&self, other: &isize) -> (r: bool) {
        assert(self.identity() == Self::key_identity(other) ==> self.identity()[0] == Self::key_identity(other)[0]);
        *self == *other
    }

    fn index(key: &isize) -> (r: Vec<u64>) {
        assert(Self::key_identity(key) == seq![signed_word(*key as int)]);
        single_word(signed_to_word(*key as i64))
    }
}

impl Identified for u128 {
    open spec fn identity(&self) -> Seq<u64> {
        wide_words(*self as int)
    }

    fn identity_words(&self) -> (r: Vec<u64>) {
        wide_to_words(*self)
    }
}

impl Identity for u128 {
    open spec fn key_identity(key: &u128) -> Seq<u64> {
        wide_words(*key as int)
    }

    fn equivalent(&self, other: &u128) -> (r: bool) {
        proof {
            if self.identity() == Self::key_identity(other) {
                lemma_wide_words_injective(*self as int, *other as int);
            }
        }
        *self == *other
    }

    fn index(key: &u128) -> (r: Vec<u64>) {
        assert(Self::key_identity(key) == wide_words(*key as int));
        wide_to_words(*key)
    }
}

/// The offset of a 128-bit signed integer from `i128::MIN`.
pub open spec fn signed_wide_offset(x: int) -> int {
    x + 0x8000_0000_0000_0000_0000_0000_0000_0000
}

/// Computes the offset of a 128-bit signed integer from `i128::MIN`.
fn signed_wide_to_unsigned(x: i128) -> (r: u128)
    ensures
        r as int == signed_wide_offset(x as int),
{
    if x >= 0 {
        (x as u128) + 0x8000_0000_0000_0000_0000_0000_0000_0000u128
    } else {
        (x + 0x7fff_ffff_ffff_ffff_ffff_ffff_ffff_ffffi128 + 1) as u128
    }
}

impl Identified for i128 {
    open spec fn identity(&self) -> Seq<u64> {
        wide_words(signed_wide_offset(*self as int))
    }

    fn identity_words(&self) -> (r: Vec<u64>) {
        wide_to_words(signed_wide_to_unsigned(*self))
    }
}

impl Identity for i128 {
    open spec fn key_identity(key: &i128) -> Seq<u64> {
        wide_words(signed_wide_offset(*key as int))
    }

    fn equivalent(&self, other: &i128) -> (r: bool) {
        proof {
            if self.identity() == Self::key_identity(other) {
                lemma_wide_words_injective(signed_wide_offset(*self as int), signed_wide_offset(*other as int));
            }
        }
        *self == *other
    }

    fn index(key: &i128) -> (r: Vec<u64>) {
        assert(Self::key_identity(key) == wide_words(signed_wide_offset(*key as int)));
        wide_to_words(signed_wide_to_unsigned(*key))
    }
}

impl SelfKeyed for String {
    proof fn lemma_self_key(x: &String) {
    }
}

impl SelfKeyed for str {
    proof fn lemma_self_key(x: &str) {
    }
}

impl SelfKeyed for bool {
    proof fn lemma_self_key(x: &bool) {
    }
}

impl SelfKeyed for char {
    proof fn lemma_self_key(x: &char) {
    }
}

impl SelfKeyed for u8 {
    proof fn lemma_self_key(x: &u8) {
    }
}

impl SelfKeyed for u16 {
    proof fn lemma_self_key(x: &u16) {
    }
}

impl SelfKeyed for u32 {
    proof fn lemma_self_key(x: &u32) {
    }
}

impl SelfKeyed for u64 {
    proof fn lemma_self_key(x: &u64) {
    }
}

impl SelfKeyed for usize {
    proof fn lemma_self_key(x: &usize) {
    }
}

impl SelfKeyed for i8 {
    proof fn lemma_self_key(x: &i8) {
    }
}

impl SelfKeyed for i16 {
    proof fn lemma_self_key(x: &i16) {
    }
}

impl SelfKeyed for i32 {
    proof fn lemma_self_key(x: &i32) {
    }
}

impl SelfKeyed for i64 {
    proof fn lemma_self_key(x: &i64) {
    }
}

impl SelfKeyed for isize {
    proof fn lemma_self_key(x: &isize) {
    }
}

impl SelfKeyed for u128 {
    proof fn lemma_self_key(x: &u128) {
    }
}

impl SelfKeyed for i128 {
    proof fn lemma_self_key(x: &i128) {
    }
}

impl<T: Identity> SelfKeyed for [T] {
    proof fn lemma_self_key(x: &[T]) {
    }
}

impl<T: Identity> SelfKeyed for Vec<T> {
    proof fn lemma_self_key(x: &Vec<T>) {
    }
}

impl<T: Identity, const N: usize> SelfKeyed for [T; N] {
    proof fn lemma_self_key(x: &[T; N]) {
    }
}

} // verus!
