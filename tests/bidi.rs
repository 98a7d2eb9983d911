use bidimap::{BidiMap, HashBidiMap, MapLike};

#[test]
fn get() {
    let mut map = HashBidiMap::new();
    map.insert(1, "2");
    assert_eq!(Some(&"2"), map.get2(&1));
    assert_eq!(Some(&1), map.get1(&"2"));
    assert_eq!("2", map.as_map()[1]);
    assert_eq!(1, map.as_inv_map()["2"]);

    map.insert(2, "2");
    assert_eq!(Some(&2), map.get1(&"2"));
    assert_eq!(None, map.get2(&1));

    map.insert(2, "3");
    assert_eq!(Some(&2), map.get1(&"3"));
    assert_eq!(None, map.get1(&"2"));
}

#[test]
fn len() {
    let mut map = HashBidiMap::new();
    assert_eq!(0, map.len());

    map.insert("1", 1);
    map.insert("2", 2);
    assert_eq!(2, map.len());
}

#[test]
fn extend() {
    let mut map = HashBidiMap::new();
    map.extend(vec!((1, "a"), (2, "b")));
    assert_eq!(Some(&1), map.get1(&"a"));
    assert_eq!(Some(&"a"), map.get2(&1));
}

#[test]
fn extend_matches_sequential_inserts() {
    let mut a = HashBidiMap::new();
    a.extend(vec![(1, "a"), (2, "b"), (3, "a")]);
    let mut b = HashBidiMap::new();
    b.insert(1, "a");
    b.insert(2, "b");
    b.insert(3, "a");
    assert_eq!(a.len(), b.len());
    assert_eq!(2, a.len());
    for k in 0..5 {
        assert_eq!(a.get2(&k), b.get2(&k));
    }
    for k in ["a", "b", "c"] {
        assert_eq!(a.get1(&k), b.get1(&k));
    }
    assert_eq!(None, a.get2(&1));
    assert_eq!(Some(&3), a.get1(&"a"));
}

#[test]
fn extend_empty_changes_nothing() {
    let mut map = HashBidiMap::new();
    map.insert(5u8, 'x');
    map.extend(Vec::new());
    assert_eq!(1, map.len());
    assert_eq!(Some(&'x'), map.get2(&5));
}

#[test]
fn every_pair_found_from_both_keys() {
    let mut map = HashBidiMap::new();
    let steps = [(1u32, 10u32), (2, 20), (3, 10), (2, 30), (4, 20), (1, 40), (4, 40)];
    for (k1, k2) in steps {
        map.insert(k1, k2);
        let mut pairs = 0;
        for a in 0..5u32 {
            if let Some(&b) = map.get2(&a) {
                assert_eq!(Some(&a), map.get1(&b));
                pairs += 1;
            }
        }
        let mut back = 0;
        for b in [10u32, 20, 30, 40] {
            if let Some(&a) = map.get1(&b) {
                assert_eq!(Some(&b), map.get2(&a));
                back += 1;
            }
        }
        assert_eq!(pairs, map.len());
        assert_eq!(back, map.len());
    }
    assert_eq!(Some(&40), map.get2(&4));
    assert_eq!(Some(&30), map.get2(&2));
    assert_eq!(None, map.get2(&1));
    assert_eq!(Some(&10), map.get2(&3));
    assert_eq!(None, map.get1(&20));
    assert_eq!(3, map.len());
}

#[test]
fn overwrite_through_both_keys_leaves_one_pair() {
    let mut map = HashBidiMap::new();
    map.insert(1, "a");
    map.insert(2, "b");
    assert_eq!(2, map.len());
    map.insert(1, "b");
    assert_eq!(1, map.len());
    assert_eq!(Some(&"b"), map.get2(&1));
    assert_eq!(Some(&1), map.get1(&"b"));
    assert_eq!(None, map.get2(&2));
    assert_eq!(None, map.get1(&"a"));
}

#[test]
fn overwrite_does_not_grow() {
    let mut map = HashBidiMap::new();
    map.insert(1, 100);
    map.insert(2, 200);
    map.insert(1, 300);
    assert_eq!(2, map.len());
    map.insert(3, 200);
    assert_eq!(2, map.len());
    assert_eq!(None, map.get2(&2));
    assert_eq!(None, map.get1(&100));
}

#[test]
fn reinsert_same_pair_changes_nothing() {
    let mut map = HashBidiMap::new();
    map.insert(7i64, 'q');
    map.insert(8, 'r');
    map.insert(7, 'q');
    assert_eq!(2, map.len());
    assert_eq!(Some(&'q'), map.get2(&7));
    assert_eq!(Some(&7), map.get1(&'q'));
    assert_eq!(Some(&'r'), map.get2(&8));
    assert_eq!(Some(&8), map.get1(&'r'));
}

#[test]
fn views_agree_with_lookups() {
    let mut map = HashBidiMap::new();
    map.insert(1, "one");
    map.insert(2, "two");
    let left = map.as_map();
    assert_eq!(Some(&"one"), left.get(&1));
    assert_eq!("two", left[2]);
    assert_eq!(None, left.get(&3));
    let right = map.as_inv_map();
    assert_eq!(Some(&2), right.get(&"two"));
    assert_eq!(1, right["one"]);
    assert_eq!(None, right.get(&"three"));
}

#[test]
fn empty_map_finds_nothing() {
    let map: HashBidiMap<u64, u64> = HashBidiMap::new();
    assert_eq!(0, map.len());
    assert_eq!(None, map.get1(&0));
    assert_eq!(None, map.get2(&0));
    assert_eq!(None, map.as_map().get(&0));
    assert_eq!(None, map.as_inv_map().get(&0));
}
