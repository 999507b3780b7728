use application::interface::PostId;

fn is_lower_hex(c: char) -> bool {
    c.is_ascii_digit() || ('a'..='f').contains(&c)
}

#[test]
fn generated_identifier_is_a_hyphenated_version_4_uuid() {
    for _ in 0..64 {
        let id = PostId::generate();
        let text: Vec<char> = id.0.chars().collect();
        assert_eq!(text.len(), 36);
        for (i, c) in text.iter().enumerate() {
            if i == 8 || i == 13 || i == 18 || i == 23 {
                assert_eq!(*c, '-');
            } else {
                assert!(is_lower_hex(*c), "{:?} at {}", c, i);
            }
        }
        assert_eq!(text[14], '4');
        assert!(matches!(text[19], '8' | '9' | 'a' | 'b'));
    }
}

#[test]
fn generated_identifier_parses_as_a_random_uuid() {
    let id = PostId::generate();
    let parsed = uuid::Uuid::parse_str(&id.0).unwrap();
    assert_eq!(parsed.get_version_num(), 4);
    assert_eq!(parsed.to_string(), id.0);
}

#[test]
fn two_generated_identifiers_differ() {
    let first = PostId::generate();
    let second = PostId::generate();
    assert!(first != second);
    assert_ne!(first.0, second.0);
}

#[test]
fn identifier_reads_through_to_its_text() {
    let id = PostId(String::from("abc"));
    assert_eq!(id.len(), 3);
    assert_eq!(id.as_str(), "abc");
    assert_eq!(*id, String::from("abc"));
}

#[test]
fn identifiers_are_equal_when_their_texts_are() {
    let id = PostId(String::from("abc"));
    assert!(id == PostId(String::from("abc")));
    assert!(id != PostId(String::from("abd")));
    assert!(id != PostId(String::new()));
    assert!(id.clone() == id);
}
