use vex::app::{App, AppMode};
use vex::buffer::{Buffer, CursorPosition};
use vex::command::{Command, Motion};
use vex::curriculum::Curriculum;
use vex::event::{Event, SpecialKey};
use vex::executor::Executor;
use vex::parser::{CommandParser, ParseResult};

#[test]
fn test_word_forward_over_pangram() {
    let mut buffer = Buffer::new("The quick brown fox jumps over the lazy dog");
    Executor::execute(&mut buffer, Command::Motion(Motion::WordForward)).unwrap();
    assert_eq!(buffer.cursor(), CursorPosition::new(0, 4));
    Executor::execute(&mut buffer, Command::Motion(Motion::WordForward)).unwrap();
    Executor::execute(&mut buffer, Command::Motion(Motion::WordForward)).unwrap();
    assert_eq!(buffer.cursor(), CursorPosition::new(0, 16));
}

#[test]
fn test_two_key_sequence_and_recovery() {
    let mut parser = CommandParser::new();
    assert_eq!(parser.parse_keystroke('g'), ParseResult::Incomplete);
    assert!(parser.is_incomplete());
    assert_eq!(
        parser.parse_keystroke('g'),
        ParseResult::Complete(Command::Motion(Motion::FileStart))
    );
    assert!(!parser.is_incomplete());

    assert_eq!(parser.parse_keystroke('g'), ParseResult::Incomplete);
    match parser.parse_keystroke('x') {
        ParseResult::Invalid(_) => (),
        _ => panic!("Expected invalid result"),
    }
    assert!(!parser.is_incomplete());
}

#[test]
fn test_curriculum_catalogue() {
    let curriculum = Curriculum::new();
    assert_eq!(curriculum.lessons().len(), 6);
    for (i, lesson) in curriculum.lessons().iter().enumerate() {
        assert_eq!(lesson.id, i + 1);
        assert!(!lesson.tasks.is_empty());
    }
    assert_eq!(curriculum.get_lesson(2).unwrap().title, "Word Movement (wbe)");
    assert!(curriculum.get_lesson(0).is_none());
    assert!(curriculum.get_lesson(7).is_none());
}

#[test]
fn test_app_quit_event() {
    let mut app = App::new();
    assert!(app.is_running());
    app.handle_event(Event::Quit);
    assert!(!app.is_running());
}

#[test]
fn test_app_menu_quit_key() {
    let mut app = App::new();
    app.handle_event(Event::Key('q'));
    assert!(!app.is_running());
}

#[test]
fn test_app_lesson_flow() {
    let mut app = App::new();
    assert_eq!(app.mode, AppMode::Menu);

    app.handle_event(Event::Key('1'));
    assert_eq!(app.mode, AppMode::Lesson);
    assert_eq!(app.feedback_message, "Lesson started! Complete each task to progress.");
    assert!(app.current_task().is_some());

    // The first task of the first lesson asks for one step right.
    app.handle_event(Event::Key('l'));
    assert_eq!(app.feedback_message, "Correct! Press Space to continue.");
    assert!(app.waiting_for_next_task);

    app.handle_event(Event::Key(' '));
    assert_eq!(app.feedback_message, "Starting next task...");
    assert_eq!(app.current_task_index, 1);
    assert!(!app.waiting_for_next_task);
}

#[test]
fn test_app_wrong_key_feedback() {
    let mut app = App::new();
    app.handle_event(Event::Key('1'));
    app.handle_event(Event::Key('z'));
    assert_eq!(app.feedback_message, "Invalid command: Unknown key: 'z'");
    assert_eq!(app.input_buffer, "");
}

#[test]
fn test_app_backspace_cancels_pending_key() {
    let mut app = App::new();
    app.handle_event(Event::Key('1'));
    app.handle_event(Event::Key('g'));
    assert_eq!(app.feedback_message, "Command incomplete...");
    app.handle_event(Event::SpecialKey(SpecialKey::Backspace));
    assert_eq!(app.feedback_message, "Command cancelled.");
    assert_eq!(app.input_buffer, "");
}

#[test]
fn test_app_escape_returns_to_menu() {
    let mut app = App::new();
    app.handle_event(Event::Key('3'));
    assert_eq!(app.mode, AppMode::Lesson);
    app.handle_event(Event::SpecialKey(SpecialKey::Escape));
    assert_eq!(app.mode, AppMode::Menu);
    assert!(app.current_lesson().is_none());
}

#[test]
fn test_app_hints_step_through() {
    let mut app = App::new();
    app.handle_event(Event::Key('1'));
    assert!(!app.show_hint);
    app.handle_event(Event::Key('?'));
    assert!(app.show_hint);
    assert_eq!(app.hint_index, 0);
    app.handle_event(Event::Key('?'));
    assert_eq!(app.hint_index, 1);
    app.handle_event(Event::Key('?'));
    app.handle_event(Event::Key('?'));
    assert_eq!(app.hint_index, 2);
}

#[test]
fn test_app_task_reset() {
    let mut app = App::new();
    app.handle_event(Event::Key('1'));
    app.handle_event(Event::Key('j'));
    assert_eq!(app.executed_commands.len(), 1);
    app.handle_event(Event::Key('r'));
    assert_eq!(app.feedback_message, "Task reset. Try again!");
    assert!(app.executed_commands.is_empty());
    assert_eq!(app.task_buffer.cursor(), CursorPosition::new(0, 0));
}

#[test]
fn test_app_wrong_command_feedback() {
    let mut app = App::new();
    app.handle_event(Event::Key('1'));
    app.handle_event(Event::Key('j'));
    assert_eq!(
        app.feedback_message,
        "Command 1 was incorrect. Expected 'l', got 'j'."
    );
}
