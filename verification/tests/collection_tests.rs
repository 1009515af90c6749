use bittern::{weak_handles, AnyRef, Arena, ArenaConfig, Entry, Identity, SecondaryMap, SecondarySet};

#[test]
fn config_default_and_builder() {
    let config = ArenaConfig::default();
    assert!(config.drop_items);
    let config = config.drop_items(false);
    assert!(!config.drop_items);
    let arena: Arena<u32> = Arena::with_config(ArenaConfig::default().drop_items(false));
    assert!(!arena.config().drop_items);
    let arena: Arena<u32> = Arena::new();
    assert!(arena.config().drop_items);
}

#[test]
fn intern_counts_distinct_identities() {
    let mut arena: Arena<u64> = Arena::new();
    assert_eq!(arena.len(), 0);
    let a = arena.intern_owned(7);
    let b = arena.intern_owned(8);
    let c = arena.intern_owned(7);
    assert_eq!(arena.len(), 2);
    assert!(a.is(&c));
    assert!(a.is_not(&b));
    assert_eq!(*b, 8);
    assert!(arena.contains(&7u64));
    assert!(!arena.contains(&9u64));
}

#[test]
fn earlier_references_survive_later_interning() {
    let mut arena: Arena<String> = Arena::new();
    let first = arena.intern("first");
    for i in 0..100 {
        arena.intern(&format!("item {}", i));
    }
    assert_eq!(arena.len(), 101);
    assert_eq!(&*first, "first");
    let again = arena.get("first").expect("first is interned");
    assert!(again.is(&first));
}

#[test]
fn iter_yields_each_item_once_in_order() {
    let mut arena: Arena<String> = Arena::new();
    arena.intern("b");
    arena.intern("a");
    arena.intern("b");
    arena.intern("c");
    let mut iter = arena.iter();
    let first = iter.next().expect("three items");
    let second = iter.next().expect("three items");
    let third = iter.next().expect("three items");
    assert!(iter.next().is_none());
    assert!(iter.next().is_none());
    assert_eq!(&*first, "b");
    assert_eq!(&*second, "a");
    assert_eq!(&*third, "c");
    assert!(first.is_not(&second) && second.is_not(&third) && first.is_not(&third));
}

#[test]
fn empty_arena_iter_and_get() {
    let arena: Arena<String> = Arena::new();
    assert!(arena.iter().next().is_none());
    assert!(arena.get("").is_none());
    assert!(!arena.contains(""));
}

#[test]
fn empty_string_is_an_item() {
    let mut arena: Arena<String> = Arena::new();
    let e1 = arena.intern("");
    let e2 = arena.intern("");
    assert!(e1.is(&e2));
    assert_eq!(arena.len(), 1);
    assert!(arena.contains(""));
}

#[test]
fn arena_identity() {
    let a1: Arena<u8> = Arena::new();
    let a2: Arena<u8> = Arena::new();
    assert!(a1.is(&a1));
    assert!(a1.is_not(&a2));
    assert!(a1 == a1);
    assert!(a1 != a2);
}

#[test]
fn weak_upgrade_fails_after_arena_is_gone() {
    let w;
    {
        let mut arena: Arena<String> = Arena::new();
        let r = arena.intern("hello");
        w = r.weak();
        assert!(w.strong().is_some());
    }
    assert!(w.strong().is_none());
}

#[test]
fn strong_keeps_arena_alive_for_weak() {
    let w;
    let s;
    {
        let mut arena: Arena<String> = Arena::new();
        let r = arena.intern("hello");
        w = r.weak();
        s = r.strong();
    }
    assert_eq!(s.arena_strong_count(), 1);
    assert_eq!(s.arena_weak_count(), 1);
    let again = w.strong().expect("a strong handle is alive");
    assert!(again.is(&s));
    assert_eq!(&*again, "hello");
    drop(again);
    drop(s);
    assert!(w.strong().is_none());
}

#[test]
fn counts_follow_handles() {
    let mut arena: Arena<u32> = Arena::new();
    assert_eq!(arena.strong_count(), 1);
    assert_eq!(arena.weak_count(), 0);
    let r = arena.intern_owned(5);
    assert_eq!(arena.strong_count(), 1);
    let s = r.strong();
    let s2 = s.clone();
    assert_eq!(arena.strong_count(), 3);
    assert_eq!(s.arena_strong_count(), 3);
    drop(s2);
    assert_eq!(arena.strong_count(), 2);
    let w = s.weak();
    let w2: bittern::Weak<u32> = s.clone().into();
    assert_eq!(arena.weak_count(), 2);
    assert!(w2.is(&w));
    drop(w);
    assert_eq!(arena.weak_count(), 1);
    let map: SecondaryMap<u32, i64> = SecondaryMap::new(&arena);
    assert_eq!(arena.strong_count(), 3);
    drop(map);
    assert_eq!(arena.strong_count(), 2);
}

#[test]
fn handles_compare_equal_by_identity() {
    let mut arena: Arena<String> = Arena::new();
    let r1 = arena.intern("x");
    let r2 = arena.get("x").expect("interned");
    let r3 = arena.intern("y");
    assert!(r1 == r2);
    assert!(r1 != r3);
    assert!(r1.strong() == r2.strong());
    assert!(r1.weak() == r2.weak());
    assert!(r1.weak() != r3.weak());
    let p = r1.as_ptr();
    assert_eq!(p, r2.as_ptr());
    assert_ne!(p, r3.as_ptr());
    assert!(r1.owned_by(&arena));
    assert!(r1.strong().owned_by(&arena));
    assert!(r1.weak().owned_by(&arena));
    let other: Arena<String> = Arena::new();
    assert!(!other.owns(&r1));
    assert!(!other.owns(&r1.weak()));
}

#[test]
fn entry_occupied_and_vacant() {
    let mut arena: Arena<String> = Arena::new();
    let existing = arena.intern("x");
    match arena.entry("x") {
        Entry::Occupied(_) => {}
        Entry::Vacant(_) => panic!("x is interned"),
    }
    let got = arena.entry("x").get().expect("occupied");
    assert!(got.is(&existing));
    assert!(arena.entry("y").get().is_none());
    let same = arena.entry("x").or_insert("ignored".to_string());
    assert!(same.is(&existing));
    assert_eq!(arena.len(), 1);
    let y = arena.entry("y").or_insert("y".to_string());
    assert_eq!(&*y, "y");
    assert_eq!(arena.len(), 2);
    let z = arena.entry("z").or_insert_with(|| "z".to_string());
    assert_eq!(&*z, "z");
    let same_z = arena.entry("z").or_insert_with(|| panic!("not called for an occupied entry"));
    assert!(same_z.is(&z));
    assert_eq!(arena.len(), 3);
    let d = arena.entry("").or_default();
    assert_eq!(&*d, "");
    assert_eq!(arena.len(), 4);
}

#[test]
fn secondary_map_read_write() {
    let mut arena: Arena<String> = Arena::new();
    let a = arena.intern("a");
    let b = arena.intern("b");
    let mut map: SecondaryMap<String, i64> = SecondaryMap::new(&arena);
    assert!(!map.contains(&a));
    assert_eq!(map.insert(a.clone(), 1), None);
    assert!(map.contains(&a));
    assert!(!map.contains(&b));
    assert_eq!(map.get(&a), Some(&1));
    assert_eq!(map.get(&b), None);
    assert_eq!(map.insert(a.strong(), 2), Some(1));
    assert_eq!(map.get(&a.weak()), Some(&2));
    assert_eq!(map.insert(b.clone(), 3), None);
    assert_eq!(map.remove(&a), Some(2));
    assert_eq!(map.remove(&a), None);
    assert!(!map.contains(&a));
    assert_eq!(map.get(&b), Some(&3));
    // A freed slot is reused without disturbing the others.
    assert_eq!(map.insert(a.clone(), 4), None);
    assert_eq!(map.get(&a), Some(&4));
    assert_eq!(map.get(&b), Some(&3));
    map.clear();
    assert!(!map.contains(&a));
    assert!(!map.contains(&b));
    assert_eq!(map.insert(b.clone(), 5), None);
    assert_eq!(map.get(&b), Some(&5));
}

#[test]
fn secondary_map_ignores_other_arenas() {
    let mut arena: Arena<String> = Arena::new();
    let mut other: Arena<String> = Arena::new();
    let a = arena.intern("a");
    let foreign = other.intern("a");
    let mut map: SecondaryMap<String, u8> = SecondaryMap::new(&arena);
    map.insert(a.clone(), 1);
    assert!(!map.contains(&foreign));
    assert_eq!(map.get(&foreign), None);
    assert_eq!(map.remove(&foreign), None);
    assert_eq!(map.get(&a), Some(&1));
}

#[test]
fn secondary_set_membership() {
    let mut arena: Arena<u32> = Arena::new();
    let one = arena.intern_owned(1);
    let two = arena.intern_owned(2);
    let mut set: SecondarySet<u32> = SecondarySet::new(&arena);
    assert!(set.insert(one.clone()));
    assert!(!set.insert(one.strong()));
    assert!(set.contains(&one));
    assert!(!set.contains(&two));
    assert!(set.remove(&one));
    assert!(!set.remove(&one));
    assert!(!set.contains(&one));
    set.insert(two.clone());
    set.clear();
    assert!(!set.contains(&two));
    let mut other: Arena<u32> = Arena::new();
    let foreign = other.intern_owned(2);
    set.insert(two.clone());
    assert!(!set.contains(&foreign));
    assert!(!set.remove(&foreign));
    assert!(set.contains(&two));
}

#[test]
fn identity_of_integers() {
    assert_eq!(<i32 as Identity>::index(&-1), vec![(i64::MAX as u64)]);
    assert_eq!(<i32 as Identity>::index(&0), vec![1u64 << 63]);
    assert!(<i32 as Identity>::index(&-1) != <i32 as Identity>::index(&1));
    assert_eq!(<u8 as Identity>::index(&200), vec![200u64]);
    assert_eq!(<u128 as Identity>::index(&((5u128 << 64) + 9)), vec![5u64, 9u64]);
    assert_eq!(<i128 as Identity>::index(&i128::MIN), vec![0u64, 0u64]);
    assert_eq!(<i128 as Identity>::index(&i128::MAX), vec![u64::MAX, u64::MAX]);
    assert_eq!(<i128 as Identity>::index(&-1), vec![u64::MAX >> 1, u64::MAX]);
    assert!(3u16.equivalent(&3));
    assert!(!3u16.equivalent(&4));
    assert!((-7i64).equivalent(&-7));
    assert!(!i128::MIN.equivalent(&i128::MAX));
    assert!(true.equivalent(&true));
    assert!(!true.equivalent(&false));
    assert!('a'.equivalent(&'a'));
    assert_eq!(<char as Identity>::index(&'a'), vec![97u64]);
}

#[test]
fn identity_of_text_and_sequences() {
    assert_eq!(<String as Identity<str>>::index("hé"), vec![104u64, 0xc3, 0xa9]);
    assert!("ab".to_string().equivalent("ab"));
    assert!(!"ab".to_string().equivalent("abc"));
    let v: Vec<u8> = vec![1, 2];
    assert_eq!(<Vec<u8> as Identity>::index(&v), vec![1u64, 1, 1, 2]);
    // Length prefixes keep differently split sequences apart.
    let nested_a: Vec<Vec<u8>> = vec![vec![1, 2], vec![3]];
    let nested_b: Vec<Vec<u8>> = vec![vec![1], vec![2, 3]];
    assert!(!nested_a.equivalent(&nested_b));
    assert!(nested_a.equivalent(&vec![vec![1, 2], vec![3]]));
    let arr: [u8; 2] = [1, 2];
    assert!(v.equivalent(&arr[..]));
    assert!(arr.equivalent(&[1, 2]));
}

#[test]
fn identity_hash_is_consistent() {
    let state = ahash::RandomState::new();
    let h1 = <String as Identity<str>>::hash("key", &state);
    let h2 = <String as Identity>::hash(&"key".to_string(), &state);
    assert_eq!(h1, h2);
}

#[test]
fn intern_slices_and_lookup_by_slice() {
    let mut arena: Arena<Vec<u16>> = Arena::new();
    let a = arena.intern(&[1, 2, 3]);
    let b = arena.intern(&[1, 2]);
    let c = arena.intern_owned(vec![1, 2, 3]);
    assert!(a.is(&c));
    assert!(a.is_not(&b));
    assert!(arena.contains(&[1u16, 2][..]));
    assert!(!arena.contains(&[2u16][..]));
    let got = arena.get(&[1u16, 2, 3][..]).expect("interned");
    assert!(got.is(&a));
    assert_eq!(arena.len(), 2);
}

#[test]
fn owned_string_found_by_str_key() {
    let mut arena: Arena<String> = Arena::new();
    let owned = arena.intern_owned("key".to_string());
    assert!(arena.contains("key"));
    let by_str = arena.get("key").expect("interned");
    let by_string = arena.get(&"key".to_string()).expect("interned");
    assert!(by_str.is(&owned) && by_string.is(&owned));
    let copied = arena.intern("key");
    assert!(copied.is(&owned));
    assert_eq!(arena.len(), 1);
}

#[test]
fn different_texts_different_items() {
    let mut arena: Arena<String> = Arena::new();
    let a = arena.intern("hello world");
    let b = arena.intern("hello World");
    let c = arena.intern("\u{1F44B}\u{1F30E}");
    assert!(a.is_not(&b) && b.is_not(&c) && a.is_not(&c));
    assert_eq!(&*c, "\u{1F44B}\u{1F30E}");
    assert_eq!(arena.len(), 3);
}


#[test]
fn allocation_size_counts_identities_and_index() {
    let mut arena: Arena<String> = Arena::new();
    let empty = arena.allocation_size_with(0, 0);
    assert_eq!(arena.allocation_size_with(5, 0), empty + 5);
    let slot = std::mem::size_of::<std::rc::Rc<String>>();
    assert_eq!(arena.allocation_size_with(0, 3), empty + 3 * slot);
    arena.intern("hello");
    arena.intern("world");
    // Each text byte is one 8-byte identity word held by the index.
    let sized = arena.allocation_size_with(0, 2);
    assert_eq!(sized, empty + 2 * std::mem::size_of::<String>() + 2 * slot + 80);
    assert!(arena.allocation_size() >= sized);
    assert_eq!(arena.allocation_size_with(usize::MAX, 0), usize::MAX);
}

#[test]
fn strong_and_weak_hash_by_identity() {
    let mut arena: Arena<String> = Arena::new();
    let a = arena.intern("a");
    let b = arena.intern("b");
    let mut strongs = std::collections::HashSet::new();
    strongs.insert(a.strong());
    strongs.insert(a.strong());
    strongs.insert(b.strong());
    assert_eq!(strongs.len(), 2);
    let mut weaks = std::collections::HashSet::new();
    weaks.insert(a.weak());
    weaks.insert(a.strong().weak());
    weaks.insert(b.weak());
    assert_eq!(weaks.len(), 2);
    assert!(weaks.contains(&b.weak()));
}

#[test]
fn weak_from_ref_stops_upgrading_when_owners_are_gone() {
    let r;
    let w;
    {
        let mut arena: Arena<String> = Arena::new();
        r = arena.intern("kept");
        w = r.weak();
        assert!(w.strong().is_some());
    }
    assert!(w.strong().is_none());
    assert_eq!(&*r, "kept");
    let s = r.strong();
    assert_eq!(s.arena_strong_count(), 1);
    assert!(s.is(&r));
}

#[test]
fn kept_items_stay_readable_without_drop() {
    let r;
    {
        let mut arena: Arena<String> = Arena::with_config(ArenaConfig::default().drop_items(false));
        r = arena.intern("kept");
        let again = arena.intern("kept");
        assert!(again.is(&r));
        assert_eq!(arena.len(), 1);
        assert!(arena.contains("kept"));
    }
    assert_eq!(&*r, "kept");
    let copy = r.clone();
    drop(r);
    assert_eq!(&*copy, "kept");
}

#[test]
fn weak_handles_discount_the_link() {
    assert_eq!(weak_handles(0), 0);
    assert_eq!(weak_handles(1), 0);
    assert_eq!(weak_handles(3), 2);
    let mut arena: Arena<u8> = Arena::new();
    let r = arena.intern_owned(7);
    assert_eq!(arena.weak_count(), 0);
    let w = r.weak();
    assert_eq!(arena.weak_count(), 1);
    let s = r.strong();
    assert_eq!(s.arena_weak_count(), 1);
    drop(w);
    assert_eq!(s.arena_weak_count(), 0);
}

#[test]
fn found_items_are_equivalent_to_their_keys() {
    let mut arena: Arena<String> = Arena::new();
    let r = arena.intern("key");
    let found = arena.get("key").expect("interned");
    assert!(found.equivalent("key"));
    assert!(found.is(&r));
    assert!(r.equivalent(&String::from("key")));
    assert!(!r.equivalent("other"));
}
