use lui_core::ClassList;

fn names(c: &ClassList) -> Vec<String> {
    c.as_slice().to_vec()
}

#[test]
fn new_list_is_empty_and_clean() {
    let c = ClassList::new();
    assert!(c.is_empty());
    assert_eq!(c.len(), 0);
    assert!(!c.is_dirty());
    assert!(!ClassList::default().is_dirty());
}

#[test]
fn add_appends_once() {
    let mut c = ClassList::new();
    c.add("a");
    c.add("b");
    c.add("a");
    assert_eq!(names(&c), vec!["a", "b"]);
    assert!(c.contains("a"));
    assert!(!c.contains("c"));
    assert!(c.is_dirty());
}

#[test]
fn add_existing_does_not_dirty() {
    let mut c = ClassList::new();
    c.add("a");
    c.clear_dirty();
    c.add("a");
    assert!(!c.is_dirty());
}

#[test]
fn remove_all_occurrences() {
    let mut c = ClassList::new();
    c.set("a b a c");
    c.clear_dirty();
    assert!(c.remove("a"));
    assert_eq!(names(&c), vec!["b", "c"]);
    assert!(c.is_dirty());
    c.clear_dirty();
    assert!(!c.remove("a"));
    assert!(!c.is_dirty());
}

#[test]
fn toggle_reports_membership() {
    let mut c = ClassList::new();
    assert!(c.toggle("x"));
    assert!(c.contains("x"));
    assert!(!c.toggle("x"));
    assert!(!c.contains("x"));
    assert!(c.is_empty());
}

#[test]
fn set_splits_on_ascii_whitespace() {
    let mut c = ClassList::new();
    c.set("  one\ttwo\nthree\r\x0cfour  ");
    assert_eq!(names(&c), vec!["one", "two", "three", "four"]);
    c.set("");
    assert!(c.is_empty());
    c.set("caf\u{e9}\u{a0}x");
    assert_eq!(names(&c), vec!["caf\u{e9}\u{a0}x"]);
}

#[test]
fn clear_dirties_only_when_nonempty() {
    let mut c = ClassList::new();
    c.clear();
    assert!(!c.is_dirty());
    c.add("a");
    c.clear_dirty();
    c.clear();
    assert!(c.is_empty());
    assert!(c.is_dirty());
}

#[test]
fn iter_yields_in_order() {
    let mut c = ClassList::new();
    c.set("b a");
    let v: Vec<&String> = c.iter().collect();
    assert_eq!(v, vec!["b", "a"]);
}

#[test]
fn equality_ignores_dirty_flag() {
    let mut a = ClassList::new();
    a.add("x");
    let mut b = ClassList::new();
    b.add("x");
    b.clear_dirty();
    assert!(a == b);
    b.add("y");
    assert!(a != b);
}
