use vex::buffer::{Buffer, CursorPosition};

#[test]
fn test_buffer_creation() {
    let buffer = Buffer::new("Hello World");
    assert_eq!(buffer.line_count(), 1);
    assert_eq!(buffer.cursor(), CursorPosition::new(0, 0));
}

#[test]
fn test_word_boundaries() {
    let buffer = Buffer::new("foo.bar baz");
    buffer.cursor();

    let next_pos = buffer.find_next_word_start();
    assert_eq!(next_pos.column, 3);
}

#[test]
fn test_multi_line_buffer() {
    let buffer = Buffer::new("Line 1\nLine 2\nLine 3");
    assert_eq!(buffer.line_count(), 3);
}

#[test]
fn test_empty_text_gives_one_empty_line() {
    let buffer = Buffer::new("");
    assert_eq!(buffer.line_count(), 1);
    assert_eq!(buffer.current_line_len(), 0);
    assert_eq!(buffer.get_line(0), Some(""));
}

#[test]
fn test_from_lines_empty_fallback() {
    let buffer = Buffer::from_lines(Vec::new());
    assert_eq!(buffer.line_count(), 1);
    assert_eq!(buffer.get_line(0), Some(""));
}

#[test]
fn test_from_lines_keeps_order() {
    let buffer = Buffer::from_lines(vec![String::from("alpha"), String::from("beta")]);
    assert_eq!(buffer.line_count(), 2);
    assert_eq!(buffer.get_line(0), Some("alpha"));
    assert_eq!(buffer.get_line(1), Some("beta"));
    assert_eq!(buffer.get_line(2), None);
}

#[test]
fn test_trailing_newline_yields_no_extra_line() {
    let buffer = Buffer::new("one\ntwo\n");
    assert_eq!(buffer.line_count(), 2);
    assert_eq!(buffer.get_line(1), Some("two"));
}

#[test]
fn test_carriage_return_stripped() {
    let buffer = Buffer::new("one\r\ntwo");
    assert_eq!(buffer.get_line(0), Some("one"));
    assert_eq!(buffer.get_line(1), Some("two"));
}

#[test]
fn test_set_cursor_and_lines_view() {
    let mut buffer = Buffer::new("ab\ncd");
    buffer.set_cursor(CursorPosition::new(1, 1));
    assert_eq!(buffer.cursor(), CursorPosition::new(1, 1));
    assert_eq!(buffer.current_line(), "cd");
    assert_eq!(buffer.current_line_len(), 2);
    let lines = buffer.lines();
    assert_eq!(lines.len(), 2);
    assert_eq!(lines[0], "ab");
}

#[test]
fn test_columns_count_code_points() {
    let buffer = Buffer::new("héllo wörld");
    let next_pos = buffer.find_next_word_start();
    assert_eq!((next_pos.line, next_pos.column), (0, 6));
}

#[test]
fn test_word_forward_crosses_line_break() {
    let mut buffer = Buffer::new("one\ntwo three");
    buffer.set_cursor(CursorPosition::new(0, 3));
    let pos = buffer.find_next_word_start();
    assert_eq!((pos.line, pos.column), (1, 0));
}

#[test]
fn test_word_forward_exhausted_falls_to_last_char() {
    let mut buffer = Buffer::new("one two");
    buffer.set_cursor(CursorPosition::new(0, 4));
    let pos = buffer.find_next_word_start();
    assert_eq!((pos.line, pos.column), (0, 6));
}

#[test]
fn test_word_backward_at_origin_stays() {
    let buffer = Buffer::new("one two");
    let pos = buffer.find_prev_word_start();
    assert_eq!((pos.line, pos.column), (0, 0));
}

#[test]
fn test_word_backward_crosses_line_break() {
    let mut buffer = Buffer::new("one two\nthree");
    buffer.set_cursor(CursorPosition::new(1, 0));
    let pos = buffer.find_prev_word_start();
    assert_eq!((pos.line, pos.column), (0, 4));
}

#[test]
fn test_word_backward_skips_blank_lines() {
    let mut buffer = Buffer::new("one\n   \n\nx");
    buffer.set_cursor(CursorPosition::new(3, 0));
    let pos = buffer.find_prev_word_start();
    assert_eq!((pos.line, pos.column), (0, 0));
}

#[test]
fn test_word_end_within_line() {
    let mut buffer = Buffer::new("The quick brown fox");
    buffer.set_cursor(CursorPosition::new(0, 10));
    let pos = buffer.find_word_end();
    assert_eq!((pos.line, pos.column), (0, 14));
}

#[test]
fn test_word_end_crosses_line_break() {
    let mut buffer = Buffer::new("one\n  two");
    buffer.set_cursor(CursorPosition::new(0, 2));
    let pos = buffer.find_word_end();
    assert_eq!((pos.line, pos.column), (1, 4));
}

#[test]
fn test_punctuation_is_its_own_token() {
    let mut buffer = Buffer::new("foo.bar");
    buffer.set_cursor(CursorPosition::new(0, 3));
    let pos = buffer.find_next_word_start();
    assert_eq!((pos.line, pos.column), (0, 4));
    let back = buffer.find_prev_word_start();
    assert_eq!((back.line, back.column), (0, 0));
}
