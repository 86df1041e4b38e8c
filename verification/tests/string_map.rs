use indexify::string_map::StringMap;

#[test]
fn new_map_is_empty() {
    let map: StringMap<u64> = StringMap::new();
    assert_eq!(map.len(), 0);
    assert!(map.is_empty());
    assert_eq!(map.get("a"), None);
    assert!(!map.contains_key("a"));
}

#[test]
fn insert_appends_new_keys_in_order() {
    let mut map = StringMap::new();
    assert_eq!(map.insert("b".to_string(), 2u64), None);
    assert_eq!(map.insert("a".to_string(), 1u64), None);
    assert_eq!(map.len(), 2);
    assert!(!map.is_empty());
    assert_eq!(map.entry(0), (&"b".to_string(), &2));
    assert_eq!(map.entry(1), (&"a".to_string(), &1));
    assert_eq!(map.get("a"), Some(&1));
    assert_eq!(map.get("b"), Some(&2));
    assert_eq!(map.get("c"), None);
    assert!(map.contains_key("a"));
    assert!(!map.contains_key("ab"));
}

#[test]
fn insert_replaces_the_value_of_a_known_key_in_place() {
    let mut map = StringMap::new();
    map.insert("a".to_string(), 1u64);
    map.insert("b".to_string(), 2u64);
    map.insert("c".to_string(), 3u64);
    assert_eq!(map.insert("b".to_string(), 20u64), Some(2));
    assert_eq!(map.len(), 3);
    assert_eq!(map.entry(1), (&"b".to_string(), &20));
    assert_eq!(map.get("b"), Some(&20));
    assert_eq!(map.into_entries(), vec![
        ("a".to_string(), 1),
        ("b".to_string(), 20),
        ("c".to_string(), 3),
    ]);
}

#[test]
fn keys_are_compared_as_texts() {
    let mut map = StringMap::new();
    map.insert("é".to_string(), 1u64);
    map.insert("e".to_string(), 2u64);
    map.insert("".to_string(), 3u64);
    assert_eq!(map.get("é"), Some(&1));
    assert_eq!(map.get("e"), Some(&2));
    assert_eq!(map.get(""), Some(&3));
    assert_eq!(map.get("è"), None);
}

#[test]
fn from_entries_keeps_the_entries() {
    let map = StringMap::from_entries(vec![("x".to_string(), 1u8), ("y".to_string(), 2u8)]);
    assert_eq!(map.len(), 2);
    assert_eq!(map.get("y"), Some(&2));
}

#[test]
fn a_clone_has_the_same_entries() {
    let mut map = StringMap::new();
    map.insert("a".to_string(), "x".to_string());
    map.insert("b".to_string(), "y".to_string());
    let copy = map.clone();
    assert_eq!(copy, map);
    assert_eq!(copy.entry(1), (&"b".to_string(), &"y".to_string()));
}
