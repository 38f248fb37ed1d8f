use psh::names::NameMap;

#[test]
fn name_map_keeps_its_names_in_order() {
    let mut m: NameMap<u8> = NameMap::new();
    assert_eq!(m.len(), 0);
    assert_eq!(m.insert("b", 2), None);
    assert_eq!(m.insert("a", 1), None);
    assert_eq!(m.insert("c", 3), None);
    assert_eq!(m.len(), 3);
    assert_eq!(m.entry_at(0), &("a".to_string(), 1));
    assert_eq!(m.entry_at(1), &("b".to_string(), 2));
    assert_eq!(m.entry_at(2), &("c".to_string(), 3));
}

#[test]
fn name_map_insert_replaces_and_hands_back_the_old_value() {
    let mut m: NameMap<&str> = NameMap::new();
    assert_eq!(m.insert("k", "one"), None);
    assert_eq!(m.insert("k", "two"), Some("one"));
    assert_eq!(m.len(), 1);
    assert_eq!(m.get("k"), Some(&"two"));
    assert!(m.contains("k"));
    assert!(!m.contains("K"));
}

#[test]
fn name_map_remove_hands_back_the_value() {
    let mut m: NameMap<u8> = NameMap::new();
    for (i, n) in ["x", "y", "z"].iter().enumerate() {
        assert_eq!(m.insert(n, i as u8), None);
    }
    assert_eq!(m.remove("y"), Some(1));
    assert_eq!(m.remove("y"), None);
    assert_eq!(m.get("y"), None);
    assert_eq!(m.len(), 2);
    assert_eq!(m.entry_at(1), &("z".to_string(), 2));
    assert_eq!(m.remove("nobody"), None);
    assert_eq!(m.len(), 2);
}
