use check_for_license::store::{reload, ProcessedSet};

#[test]
fn add_records_membership() {
    let mut set = ProcessedSet::new();
    assert_eq!(set.len(), 0);
    assert!(!set.contains(&String::from("t3_abc")));
    set.add(&String::from("t3_abc"));
    assert!(set.contains(&String::from("t3_abc")));
    assert_eq!(set.len(), 1);
}

#[test]
fn add_twice_changes_nothing() {
    let mut set = ProcessedSet::new();
    set.add(&String::from("t3_abc"));
    let once = set.encode();
    set.add(&String::from("t3_abc"));
    assert_eq!(set.len(), 1);
    assert!(set.contains(&String::from("t3_abc")));
    assert_eq!(set.encode(), once);
}

#[test]
fn encode_then_restore_round_trip() {
    let mut set = ProcessedSet::new();
    set.add(&String::from("t3_abc"));
    set.add(&String::from("t3_def"));
    let data = set.encode();
    let back = ProcessedSet::restore(&data);
    assert_eq!(back.len(), 2);
    assert!(back.contains(&String::from("t3_abc")));
    assert!(back.contains(&String::from("t3_def")));
}

#[test]
fn restore_of_malformed_text_is_empty() {
    assert_eq!(ProcessedSet::restore("not json at all").len(), 0);
    assert_eq!(ProcessedSet::restore("{\"a\": 1}").len(), 0);
    assert_eq!(ProcessedSet::restore("").len(), 0);
}

#[test]
fn restore_of_empty_array_is_empty() {
    assert_eq!(ProcessedSet::restore("[]").len(), 0);
}

#[test]
fn restore_of_plain_array_text() {
    let set = ProcessedSet::restore("[\"t3_x\",\"t3_y\"]");
    assert_eq!(set.len(), 2);
    assert!(set.contains(&String::from("t3_x")));
    assert!(set.contains(&String::from("t3_y")));
}

#[test]
fn reload_keeps_every_identifier() {
    let mut set = ProcessedSet::new();
    set.add(&String::from("t3_abc"));
    set.add(&String::from("t3_def"));
    let back = reload(&set);
    assert_eq!(back.len(), set.len());
    assert!(back.contains(&String::from("t3_abc")));
    assert!(back.contains(&String::from("t3_def")));
}
