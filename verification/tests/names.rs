use hyperion_core::names::{name_order, NameMap, NameOrder};

#[test]
fn names_compare_by_their_bytes() {
    assert_eq!(name_order("a", "b"), NameOrder::Before);
    assert_eq!(name_order("b", "a"), NameOrder::After);
    assert_eq!(name_order("ab", "a"), NameOrder::After);
    assert_eq!(name_order("", "a"), NameOrder::Before);
    assert_eq!(name_order("Z", "a"), NameOrder::Before);
    assert_eq!(name_order("z", "\u{e9}"), NameOrder::Before);
    assert_eq!(name_order("pad", "pad"), NameOrder::Same);
}

#[test]
fn names_are_listed_in_order_and_once() {
    let mut m = NameMap::new();
    assert_eq!(m.insert("pad".to_string(), 1), None);
    assert_eq!(m.insert("a".to_string(), 2), None);
    assert_eq!(m.insert("zed".to_string(), 3), None);
    assert_eq!(m.insert("pad".to_string(), 4), Some(1));
    assert_eq!(m.names(), vec!["a", "pad", "zed"]);
    assert_eq!(m.len(), 3);
    assert_eq!(m.get("pad"), Some(&4));
    assert_eq!(m.name_at(2), "zed");
    assert_eq!(m.value_at(0), &2);
}

#[test]
fn a_removed_name_is_gone() {
    let mut m = NameMap::new();
    m.insert("a".to_string(), 1);
    m.insert("b".to_string(), 2);
    assert_eq!(m.remove("c"), None);
    assert_eq!(m.remove("a"), Some(1));
    assert!(!m.contains_key("a"));
    assert!(m.contains_key("b"));
    assert_eq!(m.names(), vec!["b"]);
}
