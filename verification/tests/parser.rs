use vex::command::{Command, Motion};
use vex::parser::{CommandParser, ParseResult};

#[test]
fn test_basic_motions() {
    let mut parser = CommandParser::new();

    assert_eq!(
        parser.parse_keystroke('h'),
        ParseResult::Complete(Command::Motion(Motion::Left))
    );
    assert_eq!(
        parser.parse_keystroke('j'),
        ParseResult::Complete(Command::Motion(Motion::Down))
    );
}

#[test]
fn test_gg_command() {
    let mut parser = CommandParser::new();

    assert_eq!(parser.parse_keystroke('g'), ParseResult::Incomplete);
    assert_eq!(
        parser.parse_keystroke('g'),
        ParseResult::Complete(Command::Motion(Motion::FileStart))
    );
}

#[test]
fn test_invalid_after_g() {
    let mut parser = CommandParser::new();

    assert_eq!(parser.parse_keystroke('g'), ParseResult::Incomplete);
    match parser.parse_keystroke('x') {
        ParseResult::Invalid(_) => (),
        _ => panic!("Expected invalid result"),
    }
}

#[test]
fn test_every_single_key_motion() {
    let cases = [
        ('h', Motion::Left),
        ('j', Motion::Down),
        ('k', Motion::Up),
        ('l', Motion::Right),
        ('w', Motion::WordForward),
        ('b', Motion::WordBackward),
        ('e', Motion::WordEnd),
        ('0', Motion::LineStart),
        ('$', Motion::LineEnd),
        ('G', Motion::FileEnd),
    ];
    let mut parser = CommandParser::new();
    for (key, motion) in cases {
        assert_eq!(
            parser.parse_keystroke(key),
            ParseResult::Complete(Command::Motion(motion))
        );
        assert!(!parser.is_incomplete());
    }
}

#[test]
fn test_incomplete_then_invalid_self_heals() {
    let mut parser = CommandParser::new();
    assert_eq!(parser.parse_keystroke('g'), ParseResult::Incomplete);
    assert!(parser.is_incomplete());
    match parser.parse_keystroke('x') {
        ParseResult::Invalid(msg) => {
            assert_eq!(msg, "Expected 'g' after 'g', got 'x'");
        },
        _ => panic!("Expected invalid result"),
    }
    assert!(!parser.is_incomplete());
    assert_eq!(
        parser.parse_keystroke('w'),
        ParseResult::Complete(Command::Motion(Motion::WordForward))
    );
}

#[test]
fn test_unknown_key_message() {
    let mut parser = CommandParser::new();
    match parser.parse_keystroke('z') {
        ParseResult::Invalid(msg) => {
            assert_eq!(msg, "Unknown key: 'z'");
        },
        _ => panic!("Expected invalid result"),
    }
    assert!(!parser.is_incomplete());
}

#[test]
fn test_reset_discards_pending_key() {
    let mut parser = CommandParser::new();
    parser.parse_keystroke('g');
    assert!(parser.is_incomplete());
    parser.reset();
    assert!(!parser.is_incomplete());
    assert_eq!(
        parser.parse_keystroke('g'),
        ParseResult::Incomplete
    );
}

#[test]
fn test_key_labels() {
    assert_eq!(Motion::Left.to_key_str(), "h");
    assert_eq!(Motion::Down.to_key_str(), "j");
    assert_eq!(Motion::Up.to_key_str(), "k");
    assert_eq!(Motion::Right.to_key_str(), "l");
    assert_eq!(Motion::WordForward.to_key_str(), "w");
    assert_eq!(Motion::WordBackward.to_key_str(), "b");
    assert_eq!(Motion::WordEnd.to_key_str(), "e");
    assert_eq!(Motion::LineStart.to_key_str(), "0");
    assert_eq!(Motion::LineEnd.to_key_str(), "$");
    assert_eq!(Motion::FileStart.to_key_str(), "gg");
    assert_eq!(Motion::FileEnd.to_key_str(), "G");
}

#[test]
fn test_as_motion() {
    assert_eq!(
        Command::Motion(Motion::WordEnd).as_motion(),
        Some(Motion::WordEnd)
    );
}
