use mitsuba_rs::Dict;

#[test]
fn a_new_table_is_empty() {
    let d: Dict<String> = Dict::new();
    assert!(d.is_empty());
    assert_eq!(d.len(), 0);
    assert_eq!(d.get("a"), None);
    assert!(!d.contains_key("a"));
}

#[test]
fn names_keep_the_order_in_which_they_came() {
    let mut d: Dict<String> = Dict::new();
    d.insert("b".to_string(), "1".to_string());
    d.insert("a".to_string(), "2".to_string());
    d.insert("c".to_string(), "3".to_string());
    assert_eq!(d.len(), 3);
    assert_eq!(d.key_at(0), "b");
    assert_eq!(d.key_at(1), "a");
    assert_eq!(d.key_at(2), "c");
    assert_eq!(d.value_at(1), "2");
    assert_eq!(d.find("c"), Some(2));
    assert_eq!(d.find("d"), None);
}

#[test]
fn the_last_writer_wins_and_keeps_the_place() {
    let mut d: Dict<String> = Dict::new();
    d.insert("x".to_string(), "old".to_string());
    d.insert("y".to_string(), "other".to_string());
    d.insert("x".to_string(), "new".to_string());
    assert_eq!(d.len(), 2);
    assert_eq!(d.get("x").unwrap(), "new");
    assert_eq!(d.get("y").unwrap(), "other");
    assert_eq!(d.key_at(0), "x");
}

#[test]
fn removal_takes_out_one_name() {
    let mut d: Dict<String> = Dict::new();
    d.insert("x".to_string(), "1".to_string());
    d.insert("y".to_string(), "2".to_string());
    assert_eq!(d.remove("x"), Some("1".to_string()));
    assert_eq!(d.remove("x"), None);
    assert_eq!(d.len(), 1);
    assert_eq!(d.key_at(0), "y");
    assert!(d.contains_key("y"));
}
