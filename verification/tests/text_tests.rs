use loglens::text::trim_message;

#[test]
fn trim_two_of_hello_is_llo() {
    assert_eq!(trim_message("hello", 2), "llo");
}

#[test]
fn trim_zero_keeps_message() {
    assert_eq!(trim_message("hello", 0), "hello");
}

#[test]
fn trim_counts_characters_not_bytes() {
    // 'é' is two bytes but one character.
    assert_eq!(trim_message("héllo", 2), "llo");
}

#[test]
fn trim_more_than_length_is_empty() {
    assert_eq!(trim_message("hi", 5), "");
}

#[test]
fn trim_exact_length_is_empty() {
    assert_eq!(trim_message("hi", 2), "");
}

#[test]
fn trim_empty_message_is_empty() {
    assert_eq!(trim_message("", 3), "");
}
