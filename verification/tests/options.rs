use websocket_connector::options::RawOptions;

#[test]
fn new_options_are_empty() {
    let opts = RawOptions::new();
    assert!(opts.is_empty());
    assert_eq!(opts.len(), 0);
    assert!(opts.get("endpoint").is_none());
    assert!(!opts.contains_key("endpoint"));
    assert!(opts.keys().is_empty());
}

#[test]
fn insert_sets_and_replaces() {
    let mut opts = RawOptions::new();
    assert_eq!(opts.insert("a".to_string(), "1".to_string()), None);
    assert_eq!(opts.insert("b".to_string(), "2".to_string()), None);
    assert_eq!(opts.insert("a".to_string(), "3".to_string()), Some("1".to_string()));
    assert_eq!(opts.len(), 2);
    assert_eq!(opts.get("a"), Some(&"3".to_string()));
    assert_eq!(opts.get("b"), Some(&"2".to_string()));
    assert_eq!(opts.keys(), vec!["a".to_string(), "b".to_string()]);
    assert!(!opts.is_empty());
}

#[test]
fn remove_takes_one_option_out() {
    let mut opts = RawOptions::new();
    opts.insert("a".to_string(), "1".to_string());
    opts.insert("b".to_string(), "2".to_string());
    opts.insert("c".to_string(), "3".to_string());
    assert_eq!(opts.remove("b"), Some("2".to_string()));
    assert_eq!(opts.remove("b"), None);
    assert_eq!(opts.remove("zzz"), None);
    assert_eq!(opts.len(), 2);
    assert!(opts.contains_key("a"));
    assert!(!opts.contains_key("b"));
    assert!(opts.contains_key("c"));
    assert_eq!(opts.keys(), vec!["a".to_string(), "c".to_string()]);
}

#[test]
fn names_are_compared_exactly() {
    let mut opts = RawOptions::new();
    opts.insert("Endpoint".to_string(), "x".to_string());
    opts.insert("endpoint ".to_string(), "y".to_string());
    assert!(!opts.contains_key("endpoint"));
    assert_eq!(opts.len(), 2);
}
