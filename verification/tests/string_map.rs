use spotnowplay::api::StringMap;

#[test]
fn get_after_insert_returns_the_value() {
    let mut m = StringMap::new();
    assert_eq!(m.len(), 0);
    assert_eq!(m.get("a"), None);
    m.insert("a".to_string(), "1".to_string());
    m.insert("b".to_string(), "2".to_string());
    assert_eq!(m.get("a").map(|s| s.as_str()), Some("1"));
    assert_eq!(m.get("b").map(|s| s.as_str()), Some("2"));
    assert_eq!(m.get("c"), None);
    assert_eq!(m.len(), 2);
}

#[test]
fn insert_replaces_in_place() {
    let mut m = StringMap::new();
    m.insert("a".to_string(), "1".to_string());
    m.insert("b".to_string(), "2".to_string());
    m.insert("a".to_string(), "3".to_string());
    assert_eq!(m.len(), 2);
    assert_eq!(m.get("a").map(|s| s.as_str()), Some("3"));
    assert_eq!(m.get("b").map(|s| s.as_str()), Some("2"));
    let keys: Vec<&str> = m.entries().iter().map(|(k, _)| k.as_str()).collect();
    assert_eq!(keys, vec!["a", "b"]);
}

#[test]
fn keys_are_case_sensitive() {
    let mut m = StringMap::new();
    m.insert("Content-Type".to_string(), "x".to_string());
    assert_eq!(m.get("content-type"), None);
    assert_eq!(m.get("Content-Type").map(|s| s.as_str()), Some("x"));
}

#[test]
fn lowercase_lookup_finds_the_first_match() {
    let mut m = StringMap::new();
    m.insert("X-Other".to_string(), "o".to_string());
    m.insert("CONTENT-Type".to_string(), "first".to_string());
    m.insert("content-type".to_string(), "second".to_string());
    assert_eq!(m.find_lowercase_key("content-type").map(|s| s.as_str()), Some("first"));
    assert_eq!(m.find_lowercase_key("x-other").map(|s| s.as_str()), Some("o"));
    assert_eq!(m.find_lowercase_key("X-Other"), None);
    assert_eq!(m.find_lowercase_key("content"), None);
}

#[test]
fn clone_keeps_entries_in_order() {
    let mut m = StringMap::new();
    m.insert("b".to_string(), "2".to_string());
    m.insert("a".to_string(), "1".to_string());
    let c = m.clone();
    assert_eq!(c.entries(), m.entries());
}
