use embridge::strmap::StrMap;

#[test]
fn insert_overwrites_in_place_and_keeps_position() {
    let mut m = StrMap::new();
    m.insert("alpha".to_owned(), "1".to_owned());
    m.insert("beta".to_owned(), "2".to_owned());
    m.insert("alpha".to_owned(), "3".to_owned());
    assert_eq!(m.len(), 2);
    assert_eq!(m.key_at(0).as_str(), "alpha");
    assert_eq!(m.key_at(1).as_str(), "beta");
    assert_eq!(m.get("alpha").map(|s| s.as_str()), Some("3"));
    assert_eq!(m.get("beta").map(|s| s.as_str()), Some("2"));
}

#[test]
fn absent_key_yields_nothing() {
    let mut m = StrMap::new();
    m.insert("alpha".to_owned(), "1".to_owned());
    assert!(m.get("beta").is_none());
    assert!(StrMap::new().get("alpha").is_none());
}

#[test]
fn from_entries_folds_with_overwrite() {
    let entries = vec![
        ("a".to_owned(), "1".to_owned()),
        ("b".to_owned(), "2".to_owned()),
        ("a".to_owned(), "3".to_owned()),
    ];
    let m = StrMap::from_entries(&entries);
    assert_eq!(m.len(), 2);
    assert_eq!(m.get("a").map(|s| s.as_str()), Some("3"));
}

#[test]
fn rebuild_reproduces_keys_order_and_values() {
    let mut m = StrMap::new();
    m.insert("z".to_owned(), "26".to_owned());
    m.insert("a".to_owned(), "1".to_owned());
    m.insert("m".to_owned(), "13".to_owned());
    let r = m.rebuild();
    assert_eq!(r.len(), m.len());
    for i in 0..m.len() {
        assert_eq!(r.key_at(i), m.key_at(i));
        assert_eq!(r.value_at(i), m.value_at(i));
    }
}
