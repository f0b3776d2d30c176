use mailtrap::StringMap;

#[test]
fn insert_reports_the_replaced_value() {
    let mut m = StringMap::new();
    assert!(m.is_empty());
    assert_eq!(m.insert("k".to_string(), "v1".to_string()), None);
    assert_eq!(m.insert("k".to_string(), "v2".to_string()), Some("v1".to_string()));
    assert_eq!(m.len(), 1);
    assert_eq!(m.get("k").unwrap(), "v2");
    assert!(!m.is_empty());
}

#[test]
fn get_after_insert_and_last_insert_wins() {
    let mut m = StringMap::new();
    m.insert("a".to_string(), "1".to_string());
    m.insert("b".to_string(), "2".to_string());
    m.insert("a".to_string(), "3".to_string());
    assert_eq!(m.get("a").unwrap(), "3");
    assert_eq!(m.get("b").unwrap(), "2");
    assert_eq!(m.get("c"), None);
    assert_eq!(m.len(), 2);
    let mut keys: Vec<&str> = m.entries().iter().map(|(k, _)| k.as_str()).collect();
    keys.sort();
    assert_eq!(keys, vec!["a", "b"]);
}

#[test]
fn equality_ignores_insertion_order() {
    let mut a = StringMap::new();
    a.insert("x".to_string(), "1".to_string());
    a.insert("y".to_string(), "2".to_string());
    let mut b = StringMap::new();
    b.insert("y".to_string(), "2".to_string());
    b.insert("x".to_string(), "1".to_string());
    assert_eq!(a, b);
    assert_eq!(a.clone(), a);
    b.insert("x".to_string(), "9".to_string());
    assert_ne!(a, b);
    let mut c = a.clone();
    c.insert("z".to_string(), "3".to_string());
    assert_ne!(a, c);
}
