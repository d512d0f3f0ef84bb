use vstd::prelude::*;

verus! {

/// The eleven cursor motions.
#[derive(Clone, Copy, Debug, PartialEq, Eq, Structural)]
pub enum Motion {
    Left,
    Down,
    Up,
    Right,
    WordForward,
    WordBackward,
    WordEnd,
    LineStart,
    LineEnd,
    FileStart,
    FileEnd,
}

/// A command wraps a motion, kept distinct so that future command kinds can
/// stand beside motions without changing the motion enumeration.
#[derive(Clone, Copy, Debug, PartialEq, Eq, Structural)]
pub enum Command {
    Motion(Motion),
}

impl Command {
    /// The motion this command wraps, when it wraps one.
    pub fn as_motion(&self) -> (r: Option<Motion>)
        ensures
            r == (match *self {
                Command::Motion(m) => Some(m),
            }),
    {
        match self {
            Command::Motion(m) => Some(*m),
        }
    }
}

/// The canonical keystroke label of each motion, one or two characters.
pub open spec fn key_label(m: Motion) -> Seq<char> {
    match m {
        Motion::Left => "h"@,
        Motion::Down => "j"@,
        Motion::Up => "k"@,
        Motion::Right => "l"@,
        Motion::WordForward => "w"@,
        Motion::WordBackward => "b"@,
        Motion::WordEnd => "e"@,
        Motion::LineStart => "0"@,
        Motion::LineEnd => "$"@,
        Motion::FileStart => "gg"@,
        Motion::FileEnd => "G"@,
    }
}

impl Motion {
    /// The canonical keystroke label of the motion.
    pub fn to_key_str(&self) -> (r: &'static str)
        ensures
            r@ == key_label(*self),
    {
        match self {
            Motion::Left => "h",
            Motion::Down => "j",
            Motion::Up => "k",
            Motion::Right => "l",
            Motion::WordForward => "w",
            Motion::WordBackward => "b",
            Motion::WordEnd => "e",
            Motion::LineStart => "0",
            Motion::LineEnd => "$",
            Motion::FileStart => "gg",
            Motion::FileEnd => "G",
        }
    }
}

} // verus!
