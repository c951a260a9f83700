use psistats::table::NamedTable;

#[test]
fn table_insert_then_get() {
    let mut t: NamedTable<u32> = NamedTable::new();
    assert_eq!(t.len(), 0);
    t.insert("cpu".to_string(), 1);
    t.insert("memory".to_string(), 2);
    assert_eq!(t.len(), 2);
    assert_eq!(t.get("cpu"), Some(&1));
    assert_eq!(t.get("memory"), Some(&2));
    assert_eq!(t.get("uptime"), None);
    assert!(t.contains_key("cpu"));
    assert!(!t.contains_key("os"));
}

#[test]
fn table_insert_replaces_in_place() {
    let mut t: NamedTable<u32> = NamedTable::new();
    t.insert("a".to_string(), 1);
    t.insert("b".to_string(), 2);
    t.insert("a".to_string(), 3);
    assert_eq!(t.len(), 2);
    assert_eq!(t.get("a"), Some(&3));
    let (n0, v0) = t.entry(0);
    let (n1, v1) = t.entry(1);
    assert_eq!((n0.as_str(), *v0), ("a", 3));
    assert_eq!((n1.as_str(), *v1), ("b", 2));
    assert_eq!(t.find("b"), Some(1));
    assert_eq!(t.find("c"), None);
}

#[test]
fn table_lookup_of_other_names_unchanged() {
    let mut t: NamedTable<&'static str> = NamedTable::new();
    t.insert("x".to_string(), "one");
    t.insert("y".to_string(), "two");
    assert_eq!(t.get("x"), Some(&"one"));
    t.insert("z".to_string(), "three");
    assert_eq!(t.get("x"), Some(&"one"));
    assert_eq!(t.get("y"), Some(&"two"));
    assert_eq!(t.get("z"), Some(&"three"));
}
