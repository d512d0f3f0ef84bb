use vstd::prelude::*;

use crate::buffer::valid_pos;
use crate::chars::{class_of, CharClass};
use crate::command::Motion;
use crate::scan::{
    back_over_spaces, lemma_back_over_spaces, lemma_run_end, lemma_run_start, run_end, run_start,
};

verus! {

/// The last resting position of a buffer: the last character of the last
/// line, or column 0 when that line is empty.
pub open spec fn last_char_pos(text: Seq<Seq<char>>) -> (int, int) {
    (
        text.len() - 1,
        if text.last().len() == 0 {
            0
        } else {
            text.last().len() - 1
        },
    )
}

/// Where word-forward lands inside the cursor's line, before any search of
/// later lines: past the current same-class run (unless the cursor sits on
/// whitespace), then past any whitespace. The line's length means the
/// search leaves the line.
pub open spec fn next_word_start_in_line(line: Seq<char>, c: int) -> int {
    let after_run = if class_of(line[c]) == CharClass::Space {
        c
    } else {
        run_end(line, c, class_of(line[c]))
    };
    run_end(line, after_run, CharClass::Space)
}

/// The first line at or after `li` holding a character that is not
/// whitespace, paired with the column of its first such character; the
/// buffer's last resting position when no such line exists.
pub open spec fn first_word_from(text: Seq<Seq<char>>, li: int) -> (int, int)
    decreases text.len() - li,
{
    if li >= text.len() {
        last_char_pos(text)
    } else if run_end(text[li], 0, CharClass::Space) < text[li].len() {
        (li, run_end(text[li], 0, CharClass::Space))
    } else {
        first_word_from(text, li + 1)
    }
}

/// Where word-forward lands: at the next token start within the cursor's
/// line when one exists, else at the first non-whitespace character of a
/// later line, else at the buffer's last resting position.
pub open spec fn word_forward_target(text: Seq<Seq<char>>, l: int, c: int) -> (int, int) {
    let line = text[l];
    if c >= line.len() {
        first_word_from(text, l + 1)
    } else {
        let j = next_word_start_in_line(line, c);
        if j >= line.len() {
            first_word_from(text, l + 1)
        } else {
            (l, j)
        }
    }
}

/// The start of the last token at or before line `li`, taking whole lines:
/// trailing whitespace of a line is ignored, and the first line (counting
/// downwards) that still holds a token yields that token's start; the
/// origin when every line down to 0 is blank.
pub open spec fn prev_word_from(text: Seq<Seq<char>>, li: int) -> (int, int)
    decreases li + 1,
{
    if li < 0 {
        (0, 0)
    } else {
        let line = text[li];
        if line.len() > 0 && class_of(line[back_over_spaces(line, line.len() - 1)])
            != CharClass::Space {
            let b = back_over_spaces(line, line.len() - 1);
            (li, run_start(line, b, class_of(line[b])))
        } else if li == 0 {
            (0, 0)
        } else {
            prev_word_from(text, li - 1)
        }
    }
}

/// Where word-backward lands: back over whitespace within the line, then
/// at the start of the same-class run under the cursor; the search moves
/// to earlier lines when the cursor is at column 0 or only whitespace lies
/// before it.
pub open spec fn word_backward_target(text: Seq<Seq<char>>, l: int, c: int) -> (int, int) {
    if c == 0 {
        prev_word_from(text, l - 1)
    } else {
        let line = text[l];
        let b = back_over_spaces(line, c - 1);
        if b == 0 && class_of(line[0]) == CharClass::Space {
            prev_word_from(text, l - 1)
        } else {
            (l, run_start(line, b, class_of(line[b])))
        }
    }
}

/// The end of the first token of the first line at or after `li` that
/// holds one, or the buffer's last resting position when none does.
pub open spec fn next_word_end_from(text: Seq<Seq<char>>, li: int) -> (int, int)
    decreases text.len() - li,
{
    if li >= text.len() {
        last_char_pos(text)
    } else {
        let line = text[li];
        let j = run_end(line, 0, CharClass::Space);
        if j < line.len() {
            (li, run_end(line, j, class_of(line[j])) - 1)
        } else {
            next_word_end_from(text, li + 1)
        }
    }
}

/// Where word-end lands: one column forward, past any whitespace, then at
/// the last character of the same-class run reached; the search moves to
/// later lines when that leaves the line.
pub open spec fn word_end_target(text: Seq<Seq<char>>, l: int, c: int) -> (int, int) {
    let line = text[l];
    if c >= line.len() {
        next_word_end_from(text, l + 1)
    } else {
        let j = run_end(line, c + 1, CharClass::Space);
        if j >= line.len() {
            next_word_end_from(text, l + 1)
        } else {
            (l, run_end(line, j, class_of(line[j])) - 1)
        }
    }
}

/// The column the cursor keeps when it moves to another line: the same
/// column, clamped to the new line's last character (0 when empty).
pub open spec fn clamp_col(line: Seq<char>, c: int) -> int {
    let m = if line.len() == 0 {
        0
    } else {
        line.len() - 1
    };
    if c < m {
        c
    } else {
        m
    }
}

/// Where each motion puts the cursor of a buffer with text `text` and
/// cursor `(l, c)`. The text itself never changes.
pub open spec fn motion_target(text: Seq<Seq<char>>, l: int, c: int, m: Motion) -> (int, int) {
    match m {
        Motion::Left => (l, if c > 0 { c - 1 } else { c }),
        Motion::Right => (
            l,
            if text[l].len() > 0 && c < text[l].len() - 1 {
                c + 1
            } else {
                c
            },
        ),
        Motion::Up => if l > 0 {
            (l - 1, clamp_col(text[l - 1], c))
        } else {
            (l, c)
        },
        Motion::Down => if l + 1 < text.len() {
            (l + 1, clamp_col(text[l + 1], c))
        } else {
            (l, c)
        },
        Motion::WordForward => word_forward_target(text, l, c),
        Motion::WordBackward => word_backward_target(text, l, c),
        Motion::WordEnd => word_end_target(text, l, c),
        Motion::LineStart => (l, 0),
        Motion::LineEnd => (
            l,
            if text[l].len() == 0 {
                0
            } else {
                text[l].len() - 1
            },
        ),
        Motion::FileStart => (0, 0),
        Motion::FileEnd => (text.len() - 1, 0),
    }
}

/// The buffer's last resting position is a valid position.
pub(crate) proof fn lemma_last_char_pos_valid(text: Seq<Seq<char>>)
    requires
        text.len() >= 1,
    ensures
        valid_pos(text, last_char_pos(text).0, last_char_pos(text).1),
{
}

/// The forward line search always lands on a valid position.
pub(crate) proof fn lemma_first_word_from_valid(text: Seq<Seq<char>>, li: int)
    requires
        text.len() >= 1,
        0 <= li,
    ensures
        valid_pos(text, first_word_from(text, li).0, first_word_from(text, li).1),
    decreases text.len() - li,
{
    if li >= text.len() {
        lemma_last_char_pos_valid(text);
    } else if run_end(text[li], 0, CharClass::Space) < text[li].len() {
        lemma_run_end(text[li], 0, CharClass::Space);
    } else {
        lemma_first_word_from_valid(text, li + 1);
    }
}

/// The backward line search always lands on a valid position.
pub(crate) proof fn lemma_prev_word_from_valid(text: Seq<Seq<char>>, li: int)
    requires
        text.len() >= 1,
        li < text.len(),
    ensures
        valid_pos(text, prev_word_from(text, li).0, prev_word_from(text, li).1),
    decreases li + 1,
{
    if li >= 0 {
        let line = text[li];
        if line.len() > 0 && class_of(line[back_over_spaces(line, line.len() - 1)])
            != CharClass::Space {
            let b = back_over_spaces(line, line.len() - 1);
            lemma_back_over_spaces(line, line.len() - 1);
            lemma_run_start(line, b, class_of(line[b]));
        } else if li > 0 {
            lemma_prev_word_from_valid(text, li - 1);
        }
    }
}

/// The forward word-end line search always lands on a valid position.
pub(crate) proof fn lemma_next_word_end_from_valid(text: Seq<Seq<char>>, li: int)
    requires
        text.len() >= 1,
        0 <= li,
    ensures
        valid_pos(text, next_word_end_from(text, li).0, next_word_end_from(text, li).1),
    decreases text.len() - li,
{
    if li >= text.len() {
        lemma_last_char_pos_valid(text);
    } else {
        let line = text[li];
        let j = run_end(line, 0, CharClass::Space);
        lemma_run_end(line, 0, CharClass::Space);
        if j < line.len() {
            lemma_run_end(line, j, class_of(line[j]));
        } else {
            lemma_next_word_end_from_valid(text, li + 1);
        }
    }
}

/// Every motion keeps the cursor on a valid position of the unchanged
/// text: the cursor invariant is preserved.
pub proof fn lemma_motion_target_valid(text: Seq<Seq<char>>, l: int, c: int, m: Motion)
    requires
        text.len() >= 1,
        valid_pos(text, l, c),
    ensures
        valid_pos(text, motion_target(text, l, c, m).0, motion_target(text, l, c, m).1),
{
    match m {
        Motion::WordForward => {
            let line = text[l];
            if c >= line.len() {
                lemma_first_word_from_valid(text, l + 1);
            } else {
                let cls = class_of(line[c]);
                let after_run = if cls == CharClass::Space {
                    c
                } else {
                    run_end(line, c, cls)
                };
                lemma_run_end(line, c, cls);
                lemma_run_end(line, after_run, CharClass::Space);
                if next_word_start_in_line(line, c) >= line.len() {
                    lemma_first_word_from_valid(text, l + 1);
                }
            }
        },
        Motion::WordBackward => {
            if c == 0 {
                lemma_prev_word_from_valid(text, l - 1);
            } else {
                let line = text[l];
                let b = back_over_spaces(line, c - 1);
                lemma_back_over_spaces(line, c - 1);
                if b == 0 && class_of(line[0]) == CharClass::Space {
                    lemma_prev_word_from_valid(text, l - 1);
                } else {
                    lemma_run_start(line, b, class_of(line[b]));
                }
            }
        },
        Motion::WordEnd => {
            let line = text[l];
            if c >= line.len() {
                lemma_next_word_end_from_valid(text, l + 1);
            } else {
                let j = run_end(line, c + 1, CharClass::Space);
                lemma_run_end(line, c + 1, CharClass::Space);
                if j >= line.len() {
                    lemma_next_word_end_from_valid(text, l + 1);
                } else {
                    lemma_run_end(line, j, class_of(line[j]));
                }
            }
        },
        _ => {},
    }
}

} // verus!
