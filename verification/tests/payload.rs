//! Records and their names.

use s3_gateway::payload::find;
use s3_gateway::payload::Payload;
use s3_gateway::text::same_text;

fn entries() -> Vec<(String, Payload)> {
    vec![
        ("key".to_string(), Payload::Text("a".to_string())),
        ("size".to_string(), Payload::Integer(1)),
        ("key".to_string(), Payload::Text("b".to_string())),
        ("".to_string(), Payload::Null),
        ("eTag".to_string(), Payload::Bool(true)),
    ]
}

#[test]
fn find_gives_the_value_of_a_name_that_stands_once() {
    let list = entries();
    assert_eq!(find(&list, "size"), Some(&Payload::Integer(1)));
    assert_eq!(find(&list, "eTag"), Some(&Payload::Bool(true)));
    assert_eq!(find(&list, ""), Some(&Payload::Null));
}

#[test]
fn find_gives_nothing_for_a_name_that_is_missing_or_repeated() {
    let list = entries();
    assert_eq!(find(&list, "key"), None);
    assert_eq!(find(&list, "sequencer"), None);
    assert_eq!(find(&list, "etag"), None);
    assert_eq!(find(&list, "siz"), None);
    assert_eq!(find(&list, "sizes"), None);
    assert_eq!(find(&Vec::new(), "size"), None);
}

#[test]
fn same_text_compares_by_content() {
    assert!(same_text("", ""));
    assert!(same_text("eTag", "eTag"));
    assert!(same_text("duração", "duração"));
    assert!(!same_text("eTag", "etag"));
    assert!(!same_text("key", "keys"));
    assert!(!same_text("keys", "key"));
    assert!(!same_text("", "a"));
    assert!(!same_text("duração", "duracao"));
}
