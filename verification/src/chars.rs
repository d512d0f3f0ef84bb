use vstd::prelude::*;

verus! {

/// Name for the result of `char::is_alphanumeric`: whether the code point
/// falls in one of the Unicode letter or number categories. The result is a
/// function of the character alone.
pub uninterp spec fn char_alphanumeric(c: char) -> bool;

/// Name for the result of `char::is_whitespace`: whether the code point has
/// the Unicode `White_Space` property. The result is a function of the
/// character alone.
pub uninterp spec fn char_whitespace(c: char) -> bool;

/// Relies on std's `char::is_alphanumeric` for the Unicode letter-or-number
/// test that defines word characters.
pub assume_specification[ char::is_alphanumeric ](c: char) -> (r: bool)
    ensures
        r == char_alphanumeric(c),
;

/// Relies on std's `char::is_whitespace` for the Unicode `White_Space` test
/// that separates tokens.
pub assume_specification[ char::is_whitespace ](c: char) -> (r: bool)
    ensures
        r == char_whitespace(c),
;

/// The three character classes that drive the word motions: word characters
/// (alphanumeric or underscore), whitespace, and punctuation (the rest).
#[derive(Clone, Copy, Debug, PartialEq, Eq, Structural)]
pub enum CharClass {
    Word,
    Space,
    Punct,
}

/// A word character is alphanumeric or an underscore.
pub open spec fn is_word_char(c: char) -> bool {
    char_alphanumeric(c) || c == '_'
}

/// The single classifier shared by every motion: whitespace wins, then word
/// characters, and whatever is left is punctuation.
pub open spec fn class_of(c: char) -> CharClass {
    if char_whitespace(c) {
        CharClass::Space
    } else if is_word_char(c) {
        CharClass::Word
    } else {
        CharClass::Punct
    }
}

/// Executable form of the shared classifier.
pub(crate) fn classify(c: char) -> (k: CharClass)
    ensures
        k == class_of(c),
{
    if c.is_whitespace() {
        CharClass::Space
    } else if c.is_alphanumeric() || c == '_' {
        CharClass::Word
    } else {
        CharClass::Punct
    }
}

} // verus!
