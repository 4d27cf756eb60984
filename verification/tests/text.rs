use clutter::text::Buffer;

#[test]
fn new_buffer_is_empty() {
    let buffer = Buffer::new();
    assert_eq!(buffer.get_text(), "");
    assert_eq!(buffer.get_length(), 0);
    assert_eq!(buffer.get_bytes(), 0);
    assert_eq!(buffer.get_max_length(), 0);
}

#[test]
fn new_with_text_holds_the_text() {
    let buffer = Buffer::new_with_text("hello");
    assert_eq!(buffer.get_text(), "hello");
    assert_eq!(buffer.get_length(), 5);
    assert_eq!(buffer.get_max_length(), 0);
}

#[test]
fn set_text_replaces_contents() {
    let mut buffer = Buffer::new_with_text("old text");
    buffer.set_text("new");
    assert_eq!(buffer.get_text(), "new");
    assert_eq!(buffer.get_length(), 3);
}

#[test]
fn lengths_count_characters_and_bytes_apart() {
    let buffer = Buffer::new_with_text("h\u{e9}llo");
    assert_eq!(buffer.get_length(), 5);
    assert_eq!(buffer.get_bytes(), 6);
}

#[test]
fn set_max_length_clamps_its_argument() {
    let mut buffer = Buffer::new();
    buffer.set_max_length(-7);
    assert_eq!(buffer.get_max_length(), 0);
    buffer.set_max_length(1_000_000);
    assert_eq!(buffer.get_max_length(), 65535);
    buffer.set_max_length(10);
    assert_eq!(buffer.get_max_length(), 10);
}

#[test]
fn set_max_length_truncates_contents() {
    let mut buffer = Buffer::new_with_text("abcdef");
    buffer.set_max_length(4);
    assert_eq!(buffer.get_text(), "abcd");
    assert_eq!(buffer.get_length(), 4);
}

#[test]
fn set_text_respects_the_maximum() {
    let mut buffer = Buffer::new();
    buffer.set_max_length(4);
    buffer.set_text("abcdef");
    assert_eq!(buffer.get_text(), "abcd");
}

#[test]
fn insert_text_inserts_at_the_position() {
    let mut buffer = Buffer::new_with_text("ad");
    let inserted = buffer.insert_text(1, "bc");
    assert_eq!(inserted, 2);
    assert_eq!(buffer.get_text(), "abcd");
}

#[test]
fn insert_text_coerces_an_offside_position() {
    let mut buffer = Buffer::new_with_text("ab");
    let appended = buffer.insert_text(100, "cd");
    assert_eq!(appended, 2);
    assert_eq!(buffer.get_text(), "abcd");
    let appended_again = buffer.insert_text(-3, "ef");
    assert_eq!(appended_again, 2);
    assert_eq!(buffer.get_text(), "abcdef");
}

#[test]
fn insert_text_respects_the_maximum() {
    let mut buffer = Buffer::new_with_text("ab");
    buffer.set_max_length(4);
    let inserted = buffer.insert_text(2, "cdef");
    assert_eq!(inserted, 2);
    assert_eq!(buffer.get_text(), "abcd");
    let refused = buffer.insert_text(0, "x");
    assert_eq!(refused, 0);
    assert_eq!(buffer.get_text(), "abcd");
    buffer.contents_within_capacity();
    assert!(buffer.get_length() <= buffer.get_max_length());
}

#[test]
fn insert_text_counts_characters_not_bytes() {
    let mut buffer = Buffer::new_with_text("ao");
    let inserted = buffer.insert_text(1, "\u{e9}\u{e8}");
    assert_eq!(inserted, 2);
    assert_eq!(buffer.get_text(), "a\u{e9}\u{e8}o");
    assert_eq!(buffer.get_length(), 4);
    assert_eq!(buffer.get_bytes(), 6);
}

#[test]
fn delete_text_removes_the_span() {
    let mut buffer = Buffer::new_with_text("abcdef");
    let deleted = buffer.delete_text(1, 3);
    assert_eq!(deleted, 3);
    assert_eq!(buffer.get_text(), "aef");
}

#[test]
fn delete_text_coerces_offside_arguments() {
    let mut buffer = Buffer::new_with_text("abcdef");
    let deleted = buffer.delete_text(4, 100);
    assert_eq!(deleted, 2);
    assert_eq!(buffer.get_text(), "abcd");
    let nothing = buffer.delete_text(100, 1);
    assert_eq!(nothing, 0);
    assert_eq!(buffer.get_text(), "abcd");
}

#[test]
fn delete_text_negative_count_deletes_to_the_end() {
    let mut buffer = Buffer::new_with_text("abcdef");
    let deleted = buffer.delete_text(2, -1);
    assert_eq!(deleted, 4);
    assert_eq!(buffer.get_text(), "ab");
    let all = buffer.delete_text(0, -5);
    assert_eq!(all, 2);
    assert_eq!(buffer.get_text(), "");
}

#[test]
fn insert_then_delete_restores_contents() {
    let mut buffer = Buffer::new_with_text("stage");
    let inserted = buffer.insert_text(2, "actor");
    assert_eq!(inserted, 5);
    assert_eq!(buffer.get_text(), "stactorage");
    let deleted = buffer.delete_text(2, inserted);
    assert_eq!(deleted, 5);
    assert_eq!(buffer.get_text(), "stage");
}
