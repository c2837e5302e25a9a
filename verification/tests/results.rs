use xstatistics::backend::results::ResultMap;

#[test]
fn read_after_write() {
    let mut m = ResultMap::new();
    assert_eq!(m.get("A"), None);
    assert!(!m.contains_key("A"));
    m.insert("A".to_string(), "1/10".to_string());
    m.insert("B".to_string(), "x".to_string());
    assert_eq!(m.get("A"), Some("1/10".to_string()));
    assert_eq!(m.get("B"), Some("x".to_string()));
    assert!(m.contains_key("B"));
}

#[test]
fn insert_replaces() {
    let mut m = ResultMap::new();
    m.insert("A".to_string(), "1".to_string());
    m.insert("A".to_string(), "2".to_string());
    assert_eq!(m.get("A"), Some("2".to_string()));
}

#[test]
fn unknown_names_read_as_question_mark() {
    let mut m = ResultMap::new();
    m.insert("Dx".to_string(), "3".to_string());
    assert_eq!(m.text_or_unknown("Dx"), "3");
    assert_eq!(m.text_or_unknown("G"), "?");
}
