use bump_allocator::HashMap;

#[test]
fn new_map_is_empty() {
    let m: HashMap<u64, u64> = HashMap::new();
    let mut n: usize = 0;
    for _ in m.iter() {
        n += 1;
    }
    assert_eq!(n, 0);
}

#[test]
fn insert_returns_previous_value() {
    let mut m: HashMap<u64, &str> = HashMap::new();
    assert_eq!(m.insert(1, "one"), None);
    assert_eq!(m.insert(2, "two"), None);
    assert_eq!(m.insert(1, "uno"), Some("one"));
}

#[test]
fn iter_yields_every_entry_once() {
    let mut m: HashMap<u64, u64> = HashMap::new();
    m.insert(3, 30);
    m.insert(1, 10);
    m.insert(2, 20);
    m.insert(1, 11);
    let mut seen: Vec<(u64, u64)> = Vec::new();
    for (k, v) in m.iter() {
        seen.push((*k, *v));
    }
    seen.sort();
    assert_eq!(seen, vec![(1, 11), (2, 20), (3, 30)]);
}
