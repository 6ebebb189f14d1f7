use xx_session_management::id_map::IdMap;

fn id(text: &str) -> String {
    text.to_owned()
}

#[test]
fn inserted_values_are_found() {
    let mut map: IdMap<u64> = IdMap::new();
    assert_eq!(map.len(), 0);
    map.insert(id("a"), 1);
    map.insert(id("b"), 2);
    assert_eq!(map.get(&id("a")), Some(&1));
    assert_eq!(map.get(&id("b")), Some(&2));
    assert_eq!(map.get(&id("c")), None);
    assert!(map.contains_key(&id("a")));
    assert!(!map.contains_key(&id("c")));
}

#[test]
fn inserting_replaces() {
    let mut map: IdMap<u64> = IdMap::new();
    map.insert(id("a"), 1);
    map.insert(id("b"), 2);
    map.insert(id("a"), 3);
    assert_eq!(map.len(), 2);
    assert_eq!(map.get(&id("a")), Some(&3));
}

#[test]
fn removing_hands_the_value_out() {
    let mut map: IdMap<u64> = IdMap::new();
    map.insert(id("a"), 1);
    map.insert(id("b"), 2);
    assert_eq!(map.remove(&id("a")), Some(1));
    assert_eq!(map.remove(&id("a")), None);
    assert_eq!(map.get(&id("b")), Some(&2));
    assert_eq!(map.len(), 1);
}

#[test]
fn entries_and_copies() {
    let mut map: IdMap<u64> = IdMap::new();
    map.insert(id("a"), 1);
    map.insert(id("b"), 2);
    let mut copy = map.clone();
    copy.insert(id("c"), 3);
    assert_eq!(map.len(), 2);
    let mut entries: Vec<(String, u64)> = Vec::new();
    for i in 0..copy.len() {
        let (id, value) = copy.entry(i);
        entries.push((id.clone(), *value));
    }
    entries.sort();
    assert_eq!(entries, vec![(id("a"), 1), (id("b"), 2), (id("c"), 3)]);
}
