use smart_shift::context::LineContext;

#[test]
fn rejects_cursor_beyond_line() {
    assert_eq!(LineContext::new("abc".to_string(), 4).err(), Some((4, 3)));
    assert_eq!(LineContext::new("中文".to_string(), 3).err(), Some((3, 2)));
}

#[test]
fn accepts_cursor_at_end_of_line() {
    let context = LineContext::new("中文".to_string(), 2).unwrap();
    assert_eq!(context.line(), "中文");
    assert_eq!(context.cursor(), 2);
    assert_eq!(context.current_char(), None);
    assert_eq!(context.previous_char(), Some('文'));
    assert_eq!(context.next_char(), None);
}

#[test]
fn neighbours_of_the_caret() {
    let context = LineContext::new("ab中de".to_string(), 2).unwrap();
    assert_eq!(context.current_char(), Some('中'));
    assert_eq!(context.previous_char(), Some('b'));
    assert_eq!(context.next_char(), Some('d'));
    assert_eq!(context.chars_before_cursor(), vec!['b', 'a']);
    assert_eq!(context.chars_after_cursor(), vec!['d', 'e']);
}

#[test]
fn caret_at_start_has_nothing_before() {
    let context = LineContext::new("xy".to_string(), 0).unwrap();
    assert_eq!(context.previous_char(), None);
    assert!(context.chars_before_cursor().is_empty());
    assert_eq!(context.chars_after_cursor(), vec!['y']);
}
