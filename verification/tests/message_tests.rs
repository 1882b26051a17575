use mlservant::message::Message;

#[test]
fn new_keeps_fields() {
    let m = Message::new(vec![
        ("a".to_string(), vec![1u8, 2, 3]),
        ("b".to_string(), vec![]),
    ]);
    assert_eq!(m.len(), 2);
    assert_eq!(m.get(&"a".to_string()), Some(&vec![1u8, 2, 3]));
    assert_eq!(m.get(&"b".to_string()), Some(&vec![]));
}

#[test]
fn from_hashmap_keeps_fields() {
    let m = Message::from_hashmap(vec![("image".to_string(), vec![0u8, 255])]);
    assert_eq!(m.len(), 1);
    assert_eq!(m.get(&"image".to_string()), Some(&vec![0u8, 255]));
}

#[test]
fn get_missing_field_is_none() {
    let m = Message::new(vec![("a".to_string(), vec![1u8])]);
    assert_eq!(m.get(&"z".to_string()), None);
}

#[test]
fn empty_message() {
    let m = Message::new(Vec::new());
    assert_eq!(m.len(), 0);
    assert_eq!(m.get(&"anything".to_string()), None);
}
