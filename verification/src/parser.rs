use vstd::prelude::*;

use vstd::string::StringExecFns;

use crate::command::{Command, Motion};

verus! {

/// What feeding one keystroke to the parser yields: a finished command, a
/// request for more keystrokes, or a rejection with a message.
#[derive(Clone, Debug, PartialEq)]
pub enum ParseResult {
    Complete(Command),
    Incomplete,
    Invalid(String),
}

/// The parser's two states: nothing pending, or one `g` pending.
#[derive(Clone, Copy, Debug, PartialEq, Eq, Structural)]
enum ParserState {
    Initial,
    GotG,
}

/// The motion a single key yields from the initial state, when it yields
/// one on its own. The key `g` is not here: it only opens a two-key
/// sequence.
pub open spec fn key_motion(key: char) -> Option<Motion> {
    if key == 'h' {
        Some(Motion::Left)
    } else if key == 'j' {
        Some(Motion::Down)
    } else if key == 'k' {
        Some(Motion::Up)
    } else if key == 'l' {
        Some(Motion::Right)
    } else if key == 'w' {
        Some(Motion::WordForward)
    } else if key == 'b' {
        Some(Motion::WordBackward)
    } else if key == 'e' {
        Some(Motion::WordEnd)
    } else if key == '0' {
        Some(Motion::LineStart)
    } else if key == '$' {
        Some(Motion::LineEnd)
    } else if key == 'G' {
        Some(Motion::FileEnd)
    } else {
        None
    }
}

/// The message rejecting an unknown key in the initial state.
pub open spec fn unknown_key_msg(key: char) -> Seq<char> {
    "Unknown key: '"@ + seq![key] + "'"@
}

/// The message rejecting a bad continuation of a pending `g`.
pub open spec fn after_g_msg(key: char) -> Seq<char> {
    "Expected 'g' after 'g', got '"@ + seq![key] + "'"@
}

/// The incremental keystroke parser: a two-state machine that turns one
/// keystroke at a time into commands.
pub struct CommandParser {
    state: ParserState,
}

impl CommandParser {
    /// Whether the parser sits outside its initial state, with a
    /// keystroke pending.
    pub closed spec fn pending(&self) -> bool {
        self.state != ParserState::Initial
    }

    /// A fresh parser, with nothing pending.
    pub fn new() -> (r: Self)
        ensures
            !r.pending(),
    {
        Self { state: ParserState::Initial }
    }

    /// Discards any pending keystroke.
    pub fn reset(&mut self)
        ensures
            !final(self).pending(),
    {
        self.state = ParserState::Initial;
    }

    /// Feeds one keystroke. From the initial state, ten keys complete a
    /// command at once, `g` leaves the parser waiting for a second `g`,
    /// and anything else is rejected; from the waiting state, `g`
    /// completes file-start and anything else is rejected. After a
    /// rejection or a completion nothing is pending: the parser never
    /// stays stuck.
    pub fn parse_keystroke(&mut self, key: char) -> (r: ParseResult)
        ensures
            !old(self).pending() ==> {
                &&& key_motion(key) matches Some(m) ==> r == ParseResult::Complete(
                    Command::Motion(m),
                ) && !final(self).pending()
                &&& key == 'g' ==> r == ParseResult::Incomplete && final(self).pending()
                &&& key_motion(key) is None && key != 'g' ==> (r matches ParseResult::Invalid(msg)
                    && msg@ == unknown_key_msg(key) && !final(self).pending())
            },
            old(self).pending() ==> {
                &&& key == 'g' ==> r == ParseResult::Complete(Command::Motion(Motion::FileStart))
                &&& key != 'g' ==> (r matches ParseResult::Invalid(msg) && msg@ == after_g_msg(
                    key,
                ))
                &&& !final(self).pending()
            },
    {
        match self.state {
            ParserState::Initial => self.parse_initial(key),
            ParserState::GotG => self.parse_after_g(key),
        }
    }

    /// One keystroke from the initial state.
    fn parse_initial(&mut self, key: char) -> (r: ParseResult)
        requires
            !old(self).pending(),
        ensures
            key_motion(key) matches Some(m) ==> r == ParseResult::Complete(Command::Motion(m))
                && !final(self).pending(),
            key == 'g' ==> r == ParseResult::Incomplete && final(self).pending(),
            key_motion(key) is None && key != 'g' ==> (r matches ParseResult::Invalid(msg) && msg@
                == unknown_key_msg(key) && !final(self).pending()),
    {
        match key {
            'h' => ParseResult::Complete(Command::Motion(Motion::Left)),
            'j' => ParseResult::Complete(Command::Motion(Motion::Down)),
            'k' => ParseResult::Complete(Command::Motion(Motion::Up)),
            'l' => ParseResult::Complete(Command::Motion(Motion::Right)),
            'w' => ParseResult::Complete(Command::Motion(Motion::WordForward)),
            'b' => ParseResult::Complete(Command::Motion(Motion::WordBackward)),
            'e' => ParseResult::Complete(Command::Motion(Motion::WordEnd)),
            '0' => ParseResult::Complete(Command::Motion(Motion::LineStart)),
            '$' => ParseResult::Complete(Command::Motion(Motion::LineEnd)),
            'G' => ParseResult::Complete(Command::Motion(Motion::FileEnd)),
            'g' => {
                self.state = ParserState::GotG;
                ParseResult::Incomplete
            },
            _ => {
                let mut msg = String::from_str("Unknown key: '");
                msg.push(key);
                msg.append("'");
                proof {
                    assert(msg@ =~= unknown_key_msg(key));
                }
                ParseResult::Invalid(msg)
            },
        }
    }

    /// One keystroke while a `g` is pending; the parser returns to its
    /// initial state whatever the key.
    fn parse_after_g(&mut self, key: char) -> (r: ParseResult)
        ensures
            key == 'g' ==> r == ParseResult::Complete(Command::Motion(Motion::FileStart)),
            key != 'g' ==> (r matches ParseResult::Invalid(msg) && msg@ == after_g_msg(key)),
            !final(self).pending(),
    {
        self.state = ParserState::Initial;
        match key {
            'g' => ParseResult::Complete(Command::Motion(Motion::FileStart)),
            _ => {
                let mut msg = String::from_str("Expected 'g' after 'g', got '");
                msg.push(key);
                msg.append("'");
                proof {
                    assert(msg@ =~= after_g_msg(key));
                }
                ParseResult::Invalid(msg)
            },
        }
    }

    /// Whether the parser currently waits for more keystrokes; the caller
    /// uses this to offer an explicit cancel.
    pub fn is_incomplete(&self) -> (r: bool)
        ensures
            r == self.pending(),
    {
        match self.state {
            ParserState::Initial => false,
            ParserState::GotG => true,
        }
    }
}

impl Default for CommandParser {
    /// The same as `CommandParser::new`: nothing pending.
    fn default() -> (r: Self)
        ensures
            !r.pending(),
    {
        Self::new()
    }
}

} // verus!
