use vstd::prelude::*;

verus! {

/// A key that is not a printable character.
#[derive(Clone, Copy, Debug, PartialEq, Eq, Structural)]
pub enum SpecialKey {
    Escape,
    Enter,
    Backspace,
}

/// One input event handed to the application: a printable key, a special
/// key, a request to quit, or a terminal resize.
#[derive(Clone, Copy, Debug, PartialEq, Eq, Structural)]
pub enum Event {
    Key(char),
    SpecialKey(SpecialKey),
    Quit,
    Resize,
}

} // verus!
