use lui_core::{hash_kv, AttrMap, NodeAttributes};

fn value(a: &NodeAttributes, name: &str) -> Option<String> {
    a.attr(name).cloned()
}

#[test]
fn attr_map_insert_get_remove() {
    let mut m = AttrMap::new();
    assert_eq!(m.len(), 0);
    m.insert("href", "/a");
    m.insert("title", "t");
    m.insert("href", "/b");
    assert_eq!(m.len(), 2);
    assert_eq!(m.get("href").map(|s| s.as_str()), Some("/b"));
    assert_eq!(m.get("title").map(|s| s.as_str()), Some("t"));
    assert_eq!(m.get("alt"), None);
    let order: Vec<&str> = m.as_slice().iter().map(|(k, _)| k.as_str()).collect();
    assert_eq!(order, vec!["href", "title"]);
    assert_eq!(m.remove("href"), Some("/b".to_string()));
    assert_eq!(m.remove("href"), None);
    assert_eq!(m.get("href"), None);
    assert_eq!(m.len(), 1);
    assert_eq!(AttrMap::default().len(), 0);
}

#[test]
fn id_is_read_and_written_as_an_attribute() {
    let mut a = NodeAttributes::new();
    assert_eq!(value(&a, "id"), None);
    a.set_attribute("id", "main");
    assert_eq!(a.id.as_deref(), Some("main"));
    assert_eq!(value(&a, "id"), Some("main".to_string()));
    assert!(a.remove_attribute("id"));
    assert!(!a.remove_attribute("id"));
    assert_eq!(value(&a, "id"), None);
}

#[test]
fn class_goes_to_the_class_list_and_is_not_read_back() {
    let mut a = NodeAttributes::new();
    a.set_attribute("class", " big  red\tbox ");
    let names: Vec<String> = a.class_list.as_slice().to_vec();
    assert_eq!(names, vec!["big", "red", "box"]);
    assert!(a.class_list.is_dirty());
    assert_eq!(value(&a, "class"), None);
    assert_eq!(a.attrs.len(), 0);
    assert!(a.remove_attribute("class"));
    assert!(a.class_list.is_empty());
    assert!(!a.remove_attribute("class"));
}

#[test]
fn data_and_aria_names_go_to_their_maps() {
    let mut a = NodeAttributes::new();
    a.set_attribute("data-user-id", "42");
    a.set_attribute("aria-label", "Close");
    a.set_attribute("title", "hello");
    assert_eq!(a.data_attrs.get("user-id").map(|s| s.as_str()), Some("42"));
    assert_eq!(a.aria_attrs.get("label").map(|s| s.as_str()), Some("Close"));
    assert_eq!(a.attrs.get("title").map(|s| s.as_str()), Some("hello"));
    assert_eq!(a.attrs.len(), 1);
    assert_eq!(value(&a, "data-user-id"), Some("42".to_string()));
    assert_eq!(value(&a, "aria-label"), Some("Close".to_string()));
    assert_eq!(value(&a, "title"), Some("hello".to_string()));
    assert_eq!(value(&a, "user-id"), None);
    assert!(a.remove_attribute("data-user-id"));
    assert!(!a.remove_attribute("data-user-id"));
    assert_eq!(value(&a, "data-user-id"), None);
    assert!(a.remove_attribute("aria-label"));
    assert!(a.remove_attribute("title"));
    assert!(!a.remove_attribute("title"));
    assert_eq!(value(&a, "title"), None);
}

#[test]
fn empty_data_key_answers_unprefixed_reads() {
    let mut a = NodeAttributes::new();
    a.set_attribute("data-", "fallback");
    a.set_attribute("aria-label", "Close");
    // A read consults the data map under the empty key for names without
    // the prefix, before the ARIA map.
    assert_eq!(value(&a, "aria-label"), Some("fallback".to_string()));
    assert_eq!(value(&a, "anything"), Some("fallback".to_string()));
    assert_eq!(value(&a, "id"), None);
    assert_eq!(value(&a, "class"), None);
}

#[test]
fn default_attributes_are_empty() {
    let a = NodeAttributes::default();
    assert!(a.id.is_none());
    assert!(a.class_list.is_empty());
    assert_eq!(a.attrs.len() + a.data_attrs.len() + a.aria_attrs.len(), 0);
}

#[test]
fn attributes_are_written_in_start_tag_order() {
    let mut a = NodeAttributes::new();
    a.set_attribute("title", "T");
    a.set_attribute("aria-hidden", "true");
    a.set_attribute("data-x", "1");
    a.set_attribute("class", "a b");
    a.set_attribute("id", "main");
    a.set_attribute("href", "/");
    let mut out = String::from("<a");
    a.write_attributes(&mut out);
    assert_eq!(
        out,
        "<a id=\"main\" class=\"a b\" title=\"T\" href=\"/\" data-x=\"1\" aria-hidden=\"true\""
    );
}

#[test]
fn no_attributes_write_nothing() {
    let a = NodeAttributes::new();
    let mut out = String::from("<p");
    a.write_attributes(&mut out);
    assert_eq!(out, "<p");
    let mut m = AttrMap::new();
    m.insert("k", "v");
    let mut s = String::new();
    m.write_entries("data-", &mut s);
    assert_eq!(s, " data-k=\"v\"");
}

#[test]
fn cloned_map_holds_the_same_entries() {
    let mut m = AttrMap::new();
    m.insert("a", "1");
    m.insert("b", "2");
    let c = m.clone();
    assert_eq!(c.as_slice(), m.as_slice());
    m.remove("a");
    assert_eq!(c.len(), 2);
}

#[test]
fn attribute_hash_ignores_order() {
    let mut a = NodeAttributes::new();
    a.set_attribute("title", "T");
    a.set_attribute("href", "/");
    a.set_attribute("data-x", "1");
    let mut b = NodeAttributes::new();
    b.set_attribute("data-x", "1");
    b.set_attribute("href", "/");
    b.set_attribute("title", "T");
    assert_eq!(a.attributes_hash_xor(), b.attributes_hash_xor());
    let expected = hash_kv("title", "T") ^ hash_kv("href", "/") ^ hash_kv("x", "1");
    assert_eq!(a.attributes_hash_xor(), expected);
    assert_eq!(NodeAttributes::new().attributes_hash_xor(), 0);
    b.set_attribute("href", "/other");
    assert_ne!(a.attributes_hash_xor(), b.attributes_hash_xor());
}

#[test]
fn attribute_hash_follows_writes_and_removals() {
    let mut a = NodeAttributes::new();
    assert_eq!(a.attrs_hash, 0);
    a.set_attribute("title", "T");
    assert_eq!(a.attrs_hash, hash_kv("title", "T"));
    a.set_attribute("data-x", "1");
    assert_eq!(a.attrs_hash, a.attributes_hash_xor());
    assert!(a.remove_attribute("title"));
    assert_eq!(a.attrs_hash, hash_kv("x", "1"));
    let before = a.attrs_hash;
    assert!(!a.remove_attribute("title"));
    assert_eq!(a.attrs_hash, before);
    a.attrs_hash = 7;
    a.recompute_hash();
    assert_eq!(a.attrs_hash, hash_kv("x", "1"));
}
