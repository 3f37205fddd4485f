use summarizer_api::ids::{new_file_id, new_user_id};

fn is_lower_hex(c: char) -> bool {
    c.is_ascii_digit() || ('a'..='f').contains(&c)
}

#[test]
fn file_id_is_32_lower_hex_digits() {
    let id = new_file_id();
    assert_eq!(id.chars().count(), 32);
    assert!(id.chars().all(is_lower_hex));
    assert!(!id.contains('-'));
    let chars: Vec<char> = id.chars().collect();
    assert_eq!(chars[12], '4');
    assert!(['8', '9', 'a', 'b'].contains(&chars[16]));
}

#[test]
fn user_id_is_hyphenated_uuid() {
    let id = new_user_id();
    let chars: Vec<char> = id.chars().collect();
    assert_eq!(chars.len(), 36);
    for (i, c) in chars.iter().enumerate() {
        if i == 8 || i == 13 || i == 18 || i == 23 {
            assert_eq!(*c, '-');
        } else {
            assert!(is_lower_hex(*c));
        }
    }
    assert_eq!(chars[14], '4');
    assert!(['8', '9', 'a', 'b'].contains(&chars[19]));
}

#[test]
fn ids_are_fresh() {
    assert_ne!(new_file_id(), new_file_id());
    assert_ne!(new_user_id(), new_user_id());
}
