use convoy::message::RawHeaders;

#[test]
fn empty_mapping_has_no_entries() {
    let h = RawHeaders::new();
    assert_eq!(h.len(), 0);
    assert!(h.get(&"a".to_string()).is_none());
}

#[test]
fn insert_then_get() {
    let mut h = RawHeaders::new();
    h.insert("a".to_string(), "1".to_string());
    assert_eq!(h.len(), 1);
    assert_eq!(h.get(&"a".to_string()), Some(&"1".to_string()));
    assert_eq!(h.get(&"b".to_string()), None);
}

#[test]
fn last_write_wins_on_repeated_key() {
    let mut h = RawHeaders::new();
    h.insert("a".to_string(), "1".to_string());
    h.insert("a".to_string(), "2".to_string());
    assert_eq!(h.len(), 1);
    assert_eq!(h.get(&"a".to_string()), Some(&"2".to_string()));
}

#[test]
fn extend_prefers_the_merged_in_headers() {
    let mut base = RawHeaders::new();
    base.insert("a".to_string(), "1".to_string());
    base.insert("c".to_string(), "0".to_string());
    let mut over = RawHeaders::new();
    over.insert("a".to_string(), "2".to_string());
    over.insert("b".to_string(), "3".to_string());
    base.extend(over);
    assert_eq!(base.len(), 3);
    assert_eq!(base.get(&"a".to_string()), Some(&"2".to_string()));
    assert_eq!(base.get(&"b".to_string()), Some(&"3".to_string()));
    assert_eq!(base.get(&"c".to_string()), Some(&"0".to_string()));
}

#[test]
fn extend_with_empty_changes_nothing() {
    let mut base = RawHeaders::new();
    base.insert("a".to_string(), "1".to_string());
    base.extend(RawHeaders::new());
    assert_eq!(base.len(), 1);
    assert_eq!(base.get(&"a".to_string()), Some(&"1".to_string()));
}

#[test]
fn to_list_lays_out_every_entry_once() {
    let mut h = RawHeaders::new();
    h.insert("a".to_string(), "1".to_string());
    h.insert("b".to_string(), "2".to_string());
    h.insert("a".to_string(), "9".to_string());
    let list = h.to_list();
    assert_eq!(
        list,
        vec![("a".to_string(), "9".to_string()), ("b".to_string(), "2".to_string())]
    );
}
