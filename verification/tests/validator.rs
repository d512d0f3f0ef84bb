use vex::buffer::CursorPosition;
use vex::command::{Command, Motion};
use vex::validator::{ValidationResult, Validator};

#[test]
fn test_correct_validation() {
    let validator = Validator::new();
    let expected = vec![Command::Motion(Motion::Right), Command::Motion(Motion::Right)];
    let actual = vec![Command::Motion(Motion::Right), Command::Motion(Motion::Right)];

    let result = validator.validate(
        &expected,
        &actual,
        CursorPosition::new(0, 2),
        CursorPosition::new(0, 2),
    );

    assert_eq!(result, ValidationResult::Correct);
}

#[test]
fn test_wrong_command() {
    let validator = Validator::new();
    let expected = vec![Command::Motion(Motion::Right)];
    let actual = vec![Command::Motion(Motion::Left)];

    let result = validator.validate(
        &expected,
        &actual,
        CursorPosition::new(0, 0),
        CursorPosition::new(0, 1),
    );

    match result {
        ValidationResult::Incorrect { .. } => (),
        _ => panic!("Expected incorrect result"),
    }
}

#[test]
fn test_count_mismatch_message() {
    let validator = Validator::new();
    let expected = vec![Command::Motion(Motion::Right)];
    let actual: Vec<Command> = Vec::new();

    let result = validator.validate(
        &expected,
        &actual,
        CursorPosition::new(0, 0),
        CursorPosition::new(0, 1),
    );

    match result {
        ValidationResult::Incorrect { feedback } => {
            assert_eq!(
                feedback,
                "Expected 1 commands, but got 0. Try using only the commands taught in this lesson."
            );
        },
        _ => panic!("Expected incorrect result"),
    }
}

#[test]
fn test_count_mismatch_message_two_digits() {
    let validator = Validator::new();
    let expected = vec![Command::Motion(Motion::Right); 12];
    let actual: Vec<Command> = Vec::new();

    let result = validator.validate(
        &expected,
        &actual,
        CursorPosition::new(0, 0),
        CursorPosition::new(0, 1),
    );

    match result {
        ValidationResult::Incorrect { feedback } => {
            assert_eq!(
                feedback,
                "Expected 12 commands, but got 0. Try using only the commands taught in this lesson."
            );
        },
        _ => panic!("Expected incorrect result"),
    }
}

#[test]
fn test_wrong_command_message_cites_index_and_labels() {
    let validator = Validator::new();
    let expected = vec![Command::Motion(Motion::Right)];
    let actual = vec![Command::Motion(Motion::Left)];

    let result = validator.validate(
        &expected,
        &actual,
        CursorPosition::new(0, 0),
        CursorPosition::new(0, 1),
    );

    match result {
        ValidationResult::Incorrect { feedback } => {
            assert_eq!(feedback, "Command 1 was incorrect. Expected 'l', got 'h'.");
        },
        _ => panic!("Expected incorrect result"),
    }
}

#[test]
fn test_first_differing_command_is_cited() {
    let validator = Validator::new();
    let expected = vec![
        Command::Motion(Motion::Right),
        Command::Motion(Motion::WordForward),
        Command::Motion(Motion::Up),
    ];
    let actual = vec![
        Command::Motion(Motion::Right),
        Command::Motion(Motion::WordBackward),
        Command::Motion(Motion::Down),
    ];

    let result = validator.validate(
        &expected,
        &actual,
        CursorPosition::new(0, 0),
        CursorPosition::new(0, 0),
    );

    match result {
        ValidationResult::Incorrect { feedback } => {
            assert_eq!(feedback, "Command 2 was incorrect. Expected 'w', got 'b'.");
        },
        _ => panic!("Expected incorrect result"),
    }
}

#[test]
fn test_wrong_position_message_cites_both_pairs() {
    let validator = Validator::new();
    let expected = vec![Command::Motion(Motion::Right)];
    let actual = vec![Command::Motion(Motion::Right)];

    let result = validator.validate(
        &expected,
        &actual,
        CursorPosition::new(0, 3),
        CursorPosition::new(0, 1),
    );

    match result {
        ValidationResult::WrongPosition { feedback } => {
            assert_eq!(
                feedback,
                "Commands were correct, but cursor is at position (0, 3). Target is (0, 1)."
            );
        },
        _ => panic!("Expected wrong-position result"),
    }
}
