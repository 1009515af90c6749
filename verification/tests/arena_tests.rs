use bittern::{Arena, Strong};

#[test]
fn test_intern() {
    let test_i32: i32 = 123;
    {
        let mut arena: Arena<i32> = Arena::new();
        let ref1 = arena.intern_owned(test_i32);
        let ref2 = arena.intern_owned(test_i32);
        assert!(ref1.is(&ref2));
        assert_eq!(*ref1, test_i32);
        assert_eq!(*ref2, test_i32);
    }
    {
        let mut arena: Arena<i32> = Arena::new();
        let ref1 = arena.intern_cloned(&test_i32);
        let ref2 = arena.intern_cloned(&test_i32);
        assert!(ref1.is(&ref2));
        assert_eq!(*ref1, test_i32);
        assert_eq!(*ref2, test_i32);
    }

    let test_i32_array: [i32; 3] = [1, 2, 3];
    {
        let mut arena: Arena<[i32; 3]> = Arena::new();
        let ref1 = arena.intern_owned(test_i32_array);
        let ref2 = arena.intern_owned(test_i32_array);
        assert!(ref1.is(&ref2));
        assert_eq!(*ref1, test_i32_array);
        assert_eq!(*ref2, test_i32_array);
    }
    {
        let mut arena: Arena<[i32; 3]> = Arena::new();
        let ref1 = arena.intern_cloned(&test_i32_array);
        let ref2 = arena.intern_cloned(&test_i32_array);
        assert!(ref1.is(&ref2));
        assert_eq!(*ref1, test_i32_array);
        assert_eq!(*ref2, test_i32_array);
    }
    {
        let mut arena: Arena<Vec<i32>> = Arena::new();
        let ref1 = arena.intern(&test_i32_array);
        let ref2 = arena.intern(&test_i32_array);
        assert!(ref1.is(&ref2));
        assert_eq!(&*ref1, &test_i32_array);
        assert_eq!(&*ref2, &test_i32_array);
    }
    {
        let mut arena: Arena<Vec<i32>> = Arena::new();
        let ref1 = arena.intern_cloned(&test_i32_array.to_vec());
        let ref2 = arena.intern_cloned(&test_i32_array.to_vec());
        assert!(ref1.is(&ref2));
        assert_eq!(*ref1, test_i32_array);
        assert_eq!(*ref2, test_i32_array);
    }

    let test_str: &str = "hello";
    {
        let mut arena: Arena<String> = Arena::new();
        let ref1 = arena.intern(test_str);
        let ref2 = arena.intern(test_str);
        assert!(ref1.is(&ref2));
        assert_eq!(&*ref1, test_str);
        assert_eq!(&*ref2, test_str);
    }
}

#[test]
fn test_contains() {
    let mut arena: Arena<String> = Arena::new();
    arena.intern("hello");
    assert!(arena.contains("hello"));
    assert!(!arena.contains("world"));
}

#[test]
fn test_get() {
    let mut arena: Arena<String> = Arena::new();
    let s1 = arena.intern("hello");
    let s2 = arena.get("hello").expect("failed to find item");
    assert!(s2.is(&s1));
    let s3 = arena.get("world");
    assert!(s3.is_none());
}

#[test]
fn test_iter() {
    let mut arena: Arena<String> = Arena::new();
    let mut test_strings = ["hello", "world", "this", "is", "a", "test"];
    for s in test_strings {
        arena.intern(s);
    }
    let mut found_strings = Vec::new();
    let mut iter = arena.iter();
    while let Some(item) = iter.next() {
        found_strings.push(item);
    }
    assert_eq!(found_strings.len(), test_strings.len());
    // Compare strings
    found_strings.sort_by(|a, b| a.cmp(b));
    test_strings.sort();
    for i in 0..test_strings.len() {
        assert_eq!(test_strings[i], &*found_strings[i]);
    }
}

#[test]
fn test_reference_comparison() {
    let mut arena: Arena<String> = Arena::new();
    let r1 = arena.intern("hello");
    let s1 = r1.strong();
    let w1 = r1.weak();

    let r2 = arena.intern("world");
    let s2 = r2.strong();
    let w2 = r2.weak();

    assert_eq!(arena.strong_count(), 3);
    assert_eq!(arena.weak_count(), 2);
    assert_eq!(arena.len(), 2);
    assert!(arena.allocation_size() >= 10); // exact allocation size can't be predicted

    // Multiple ways to create the same reference types
    assert!(r1.is(&s1.borrow()));
    assert!(w1.is(&s1.weak()));
    assert!(s1.is(&w1.strong().expect("failed to upgrade")));

    // Ref == Ref
    assert!(r1.is(&r1));
    assert!(r1.is_not(&r2));
    // Strong == Strong
    assert!(s1.is(&s1));
    assert!(s1.is_not(&s2));
    // Weak == Weak
    assert!(w1.is(&w1));
    assert!(w1.is_not(&w2));
    // Ref == Strong
    assert!(r1.is(&s1) && s1.is(&r1));
    assert!(r1.is_not(&s2) && s2.is_not(&r1));
    // Ref == Weak
    assert!(r1.is(&w1) && w1.is(&r1));
    assert!(r1.is_not(&w2) && w2.is_not(&r1));
    // Strong == Weak
    assert!(s1.is(&w1) && w1.is(&s1));
    assert!(s1.is_not(&w2) && w2.is_not(&s1));
}

#[test]
fn test_str_identity_between_arenas() {
    let mut arena1: Arena<String> = Arena::new();
    let mut arena2: Arena<String> = Arena::new();
    let s1 = arena1.intern("hello");
    let s2 = arena2.intern("hello");
    assert!(arena1.owns(&s1));
    assert!(!arena1.owns(&s2));
    assert_eq!(&*s1, &*s2);
    assert!(s1.is_not(&s2));
}

#[test]
fn test_str_identity_within_arena() {
    let mut arena: Arena<String> = Arena::new();
    let s1 = arena.intern("hello");
    let s2 = arena.intern("hello");
    let s3 = arena.intern("world");
    assert_eq!(&*s1, &*s2);
    assert!(s1.is(&s2));
    assert!(s1.is_not(&s3));
}

#[test]
fn test_rc_safety() {
    let s1: Strong<String>;
    {
        let mut arena: Arena<String> = Arena::new();
        {
            s1 = arena.intern("hello").strong();
            assert_eq!(&*s1, "hello");
        }
        assert_eq!(&*s1, "hello");
    }
    assert_eq!(&*s1, "hello");
}
