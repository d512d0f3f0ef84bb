use vex::buffer::{Buffer, CursorPosition};
use vex::command::{Command, Motion};
use vex::executor::{Executor, VimError};

#[test]
fn test_basic_movement() {
    let mut buffer = Buffer::new("Hello World");

    Executor::execute(&mut buffer, Command::Motion(Motion::Right)).unwrap();
    assert_eq!(buffer.cursor().column, 1);

    Executor::execute(&mut buffer, Command::Motion(Motion::Left)).unwrap();
    assert_eq!(buffer.cursor().column, 0);
}

#[test]
fn test_line_boundaries() {
    let mut buffer = Buffer::new("Test");
    buffer.set_cursor(CursorPosition::new(0, 3));

    Executor::execute(&mut buffer, Command::Motion(Motion::Right)).unwrap();
    assert_eq!(buffer.cursor().column, 3);
}

#[test]
fn test_word_movement() {
    let mut buffer = Buffer::new("The quick brown");

    Executor::execute(&mut buffer, Command::Motion(Motion::WordForward)).unwrap();
    assert_eq!(buffer.cursor().column, 4);

    Executor::execute(&mut buffer, Command::Motion(Motion::WordForward)).unwrap();
    assert_eq!(buffer.cursor().column, 10);
}

#[test]
fn test_left_at_origin_is_noop() {
    let mut buffer = Buffer::new("ab");
    Executor::execute(&mut buffer, Command::Motion(Motion::Left)).unwrap();
    assert_eq!(buffer.cursor(), CursorPosition::new(0, 0));
}

#[test]
fn test_up_on_first_line_is_noop() {
    let mut buffer = Buffer::new("ab\ncd");
    Executor::execute(&mut buffer, Command::Motion(Motion::Up)).unwrap();
    assert_eq!(buffer.cursor(), CursorPosition::new(0, 0));
}

#[test]
fn test_down_on_last_line_is_noop() {
    let mut buffer = Buffer::new("ab\ncd");
    buffer.set_cursor(CursorPosition::new(1, 1));
    Executor::execute(&mut buffer, Command::Motion(Motion::Down)).unwrap();
    assert_eq!(buffer.cursor(), CursorPosition::new(1, 1));
}

#[test]
fn test_vertical_move_clamps_column() {
    let mut buffer = Buffer::new("long line here\nhi\nlong again too");
    buffer.set_cursor(CursorPosition::new(0, 9));
    Executor::execute(&mut buffer, Command::Motion(Motion::Down)).unwrap();
    assert_eq!(buffer.cursor(), CursorPosition::new(1, 1));
    Executor::execute(&mut buffer, Command::Motion(Motion::Down)).unwrap();
    assert_eq!(buffer.cursor(), CursorPosition::new(2, 1));
}

#[test]
fn test_line_start_and_end() {
    let mut buffer = Buffer::new("abcde");
    buffer.set_cursor(CursorPosition::new(0, 2));
    Executor::execute(&mut buffer, Command::Motion(Motion::LineEnd)).unwrap();
    assert_eq!(buffer.cursor(), CursorPosition::new(0, 4));
    Executor::execute(&mut buffer, Command::Motion(Motion::LineStart)).unwrap();
    assert_eq!(buffer.cursor(), CursorPosition::new(0, 0));
}

#[test]
fn test_line_end_on_empty_line_is_column_zero() {
    let mut buffer = Buffer::new("ab\n\ncd");
    buffer.set_cursor(CursorPosition::new(1, 0));
    Executor::execute(&mut buffer, Command::Motion(Motion::LineEnd)).unwrap();
    assert_eq!(buffer.cursor(), CursorPosition::new(1, 0));
}

#[test]
fn test_file_start_and_end() {
    let mut buffer = Buffer::new("one\ntwo\nthree");
    buffer.set_cursor(CursorPosition::new(1, 2));
    Executor::execute(&mut buffer, Command::Motion(Motion::FileEnd)).unwrap();
    assert_eq!(buffer.cursor(), CursorPosition::new(2, 0));
    Executor::execute(&mut buffer, Command::Motion(Motion::FileStart)).unwrap();
    assert_eq!(buffer.cursor(), CursorPosition::new(0, 0));
}

#[test]
fn test_line_end_twice_equals_once() {
    let mut once = Buffer::new("hello world");
    Executor::execute(&mut once, Command::Motion(Motion::LineEnd)).unwrap();
    let mut twice = Buffer::new("hello world");
    Executor::execute(&mut twice, Command::Motion(Motion::LineEnd)).unwrap();
    Executor::execute(&mut twice, Command::Motion(Motion::LineEnd)).unwrap();
    assert_eq!(once.cursor(), twice.cursor());
}

#[test]
fn test_file_end_twice_equals_once() {
    let mut once = Buffer::new("a\nb\nc");
    Executor::execute(&mut once, Command::Motion(Motion::FileEnd)).unwrap();
    let mut twice = Buffer::new("a\nb\nc");
    Executor::execute(&mut twice, Command::Motion(Motion::FileEnd)).unwrap();
    Executor::execute(&mut twice, Command::Motion(Motion::FileEnd)).unwrap();
    assert_eq!(once.cursor(), twice.cursor());
}

#[test]
fn test_line_start_twice_equals_once() {
    let mut once = Buffer::new("hello world");
    once.set_cursor(CursorPosition::new(0, 7));
    Executor::execute(&mut once, Command::Motion(Motion::LineStart)).unwrap();
    let mut twice = Buffer::new("hello world");
    twice.set_cursor(CursorPosition::new(0, 7));
    Executor::execute(&mut twice, Command::Motion(Motion::LineStart)).unwrap();
    Executor::execute(&mut twice, Command::Motion(Motion::LineStart)).unwrap();
    assert_eq!(once.cursor(), twice.cursor());
}

#[test]
fn test_file_start_twice_equals_once() {
    let mut once = Buffer::new("a\nb\nc");
    once.set_cursor(CursorPosition::new(2, 0));
    Executor::execute(&mut once, Command::Motion(Motion::FileStart)).unwrap();
    let mut twice = Buffer::new("a\nb\nc");
    twice.set_cursor(CursorPosition::new(2, 0));
    Executor::execute(&mut twice, Command::Motion(Motion::FileStart)).unwrap();
    Executor::execute(&mut twice, Command::Motion(Motion::FileStart)).unwrap();
    assert_eq!(once.cursor(), twice.cursor());
    assert_eq!(once.cursor(), CursorPosition::new(0, 0));
}

#[test]
fn test_word_forward_then_backward_round_trip() {
    let mut buffer = Buffer::new("The quick brown fox");
    buffer.set_cursor(CursorPosition::new(0, 4));
    Executor::execute(&mut buffer, Command::Motion(Motion::WordForward)).unwrap();
    assert_eq!(buffer.cursor(), CursorPosition::new(0, 10));
    Executor::execute(&mut buffer, Command::Motion(Motion::WordBackward)).unwrap();
    assert_eq!(buffer.cursor(), CursorPosition::new(0, 4));
}

#[test]
fn test_invalid_cursor_is_refused_untouched() {
    let mut buffer = Buffer::new("ab");
    buffer.set_cursor(CursorPosition::new(5, 0));
    let result = Executor::execute(&mut buffer, Command::Motion(Motion::Right));
    match result {
        Err(VimError::InvalidMotion(msg)) => {
            assert_eq!(msg, "motion applied to a structurally invalid buffer");
        },
        Ok(()) => panic!("expected the motion to be refused"),
    }
    assert_eq!(buffer.cursor(), CursorPosition::new(5, 0));
}
