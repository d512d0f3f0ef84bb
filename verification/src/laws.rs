use vstd::prelude::*;

use crate::buffer::valid_pos;
use crate::chars::{class_of, CharClass};
use crate::command::Motion;
use crate::motion::{
    first_word_from, motion_target, next_word_start_in_line, prev_word_from, word_backward_target,
    word_forward_target,
};
use crate::scan::{back_over_spaces, lemma_run_end, run_end, run_start};

verus! {

/// Line-start, line-end, file-start and file-end are idempotent: applied
/// twice to any well-formed buffer position, they land where one
/// application lands.
pub proof fn lemma_motion_idempotent(text: Seq<Seq<char>>, l: int, c: int, m: Motion)
    requires
        text.len() >= 1,
        valid_pos(text, l, c),
        m == Motion::LineStart || m == Motion::LineEnd || m == Motion::FileStart || m
            == Motion::FileEnd,
    ensures
        ({
            let t1 = motion_target(text, l, c, m);
            motion_target(text, t1.0, t1.1, m) == t1
        }),
{
}

/// The four boundary no-ops: step-right on the last column of a non-empty
/// line, step-left at column 0, step-down on the last line, and step-up
/// on line 0 all leave the cursor where it is.
pub proof fn lemma_boundary_noops(text: Seq<Seq<char>>, l: int, c: int)
    requires
        text.len() >= 1,
        valid_pos(text, l, c),
    ensures
        text[l].len() > 0 && c == text[l].len() - 1 ==> motion_target(text, l, c, Motion::Right)
            == (l, c),
        c == 0 ==> motion_target(text, l, c, Motion::Left) == (l, c),
        l == text.len() - 1 ==> motion_target(text, l, c, Motion::Down) == (l, c),
        l == 0 ==> motion_target(text, l, c, Motion::Up) == (l, c),
{
}

/// Whether `(l, c)` sits on the first character of a token: a character
/// of the line that is not whitespace, at column 0 or preceded by a
/// character of another class.
pub open spec fn is_token_start(text: Seq<Seq<char>>, l: int, c: int) -> bool {
    &&& 0 <= l < text.len()
    &&& 0 <= c < text[l].len()
    &&& class_of(text[l][c]) != CharClass::Space
    &&& (c == 0 || class_of(text[l][c - 1]) != class_of(text[l][c]))
}

/// Whether some line at or after `li` holds a character that is not
/// whitespace.
pub open spec fn some_token_after(text: Seq<Seq<char>>, li: int) -> bool {
    exists|k: int|
        li <= k < text.len() && run_end(text[k], 0, CharClass::Space) < text[k].len()
}

/// Whether word-forward from `(l, c)` finds a genuine next token start,
/// rather than falling back to the buffer's last resting position.
pub open spec fn has_next_token(text: Seq<Seq<char>>, l: int, c: int) -> bool {
    next_word_start_in_line(text[l], c) < text[l].len() || some_token_after(text, l + 1)
}

/// When the characters from `c` up to (excluding) `i` all belong to class
/// `cls` and `c` opens the run, the backward run scan from `i` lands on
/// `c`.
proof fn lemma_run_start_is(line: Seq<char>, c: int, i: int, cls: CharClass)
    requires
        0 <= c <= i,
        forall|j: int| c <= j < i ==> class_of(line[j]) == cls,
        c == 0 || class_of(line[c - 1]) != cls,
    ensures
        run_start(line, i, cls) == c,
    decreases i - c,
{
    if i > c {
        lemma_run_start_is(line, c, i - 1, cls);
    }
}

/// When the characters strictly between `b` and `i` are whitespace and
/// `b` is column 0 or not whitespace, the backward whitespace scan from
/// `i` lands on `b`.
proof fn lemma_back_over_spaces_is(line: Seq<char>, b: int, i: int)
    requires
        0 <= b <= i,
        forall|j: int| b < j <= i ==> class_of(line[j]) == CharClass::Space,
        b == 0 || class_of(line[b]) != CharClass::Space,
    ensures
        back_over_spaces(line, i) == b,
    decreases i - b,
{
    if i > b {
        lemma_back_over_spaces_is(line, b, i - 1);
    }
}

/// When some line at or after `li` holds a token, the forward line search
/// finds the first such line and lands on its first non-whitespace
/// character; the lines it skipped are all whitespace.
proof fn lemma_first_word_found(text: Seq<Seq<char>>, li: int)
    requires
        0 <= li,
        some_token_after(text, li),
    ensures
        ({
            let (l2, c2) = first_word_from(text, li);
            &&& li <= l2 < text.len()
            &&& c2 == run_end(text[l2], 0, CharClass::Space)
            &&& c2 < text[l2].len()
            &&& forall|k: int|
                li <= k < l2 ==> run_end(text[k], 0, CharClass::Space) >= text[k].len()
        }),
    decreases text.len() - li,
{
    if run_end(text[li], 0, CharClass::Space) < text[li].len() {
    } else {
        let k0 = choose|k: int|
            li <= k < text.len() && run_end(text[k], 0, CharClass::Space) < text[k].len();
        assert(li + 1 <= k0 < text.len());
        assert(run_end(text[k0], 0, CharClass::Space) < text[k0].len());
        lemma_first_word_found(text, li + 1);
    }
}

/// When every line strictly between `l` and `li` (inclusive) is
/// whitespace only, the backward line search from `li` gives what the
/// search from `l` gives.
proof fn lemma_prev_word_through_blanks(text: Seq<Seq<char>>, l: int, li: int)
    requires
        0 <= l <= li < text.len(),
        forall|k: int| l < k <= li ==> run_end(text[k], 0, CharClass::Space) >= text[k].len(),
    ensures
        prev_word_from(text, li) == prev_word_from(text, l),
    decreases li - l,
{
    if li > l {
        let line = text[li];
        lemma_run_end(line, 0, CharClass::Space);
        if line.len() > 0 {
            lemma_back_over_spaces_is(line, 0, line.len() - 1);
        }
        lemma_prev_word_through_blanks(text, l, li - 1);
    }
}

/// The word round trip: from a token start, word-forward then
/// word-backward returns to the starting position, provided word-forward
/// finds a genuine next token start to land on.
pub proof fn lemma_word_round_trip(text: Seq<Seq<char>>, l: int, c: int)
    requires
        text.len() >= 1,
        is_token_start(text, l, c),
        has_next_token(text, l, c),
    ensures
        ({
            let (l2, c2) = word_forward_target(text, l, c);
            word_backward_target(text, l2, c2) == (l, c)
        }),
{
    let line = text[l];
    let cls = class_of(line[c]);
    let e = run_end(line, c, cls);
    lemma_run_end(line, c, cls);
    let j = run_end(line, e, CharClass::Space);
    lemma_run_end(line, e, CharClass::Space);
    assert(c + 1 <= e);
    assert(next_word_start_in_line(line, c) == j);
    if j < line.len() {
        // The next token start is on the same line: everything between the
        // run's end and it is whitespace, so the backward scan returns
        // through it to the run, and then to the run's start.
        lemma_back_over_spaces_is(line, e - 1, j - 1);
        lemma_run_start_is(line, c, e - 1, cls);
    } else {
        // The next token start is on a later line: the backward scan walks
        // back over that line's leading whitespace, then over the skipped
        // blank lines, and finds this token as the last one of its line.
        assert(some_token_after(text, l + 1));
        lemma_first_word_found(text, l + 1);
        let (l2, c2) = first_word_from(text, l + 1);
        let line2 = text[l2];
        lemma_run_end(line2, 0, CharClass::Space);
        if c2 > 0 {
            lemma_back_over_spaces_is(line2, 0, c2 - 1);
        }
        assert(word_backward_target(text, l2, c2) == prev_word_from(text, l2 - 1));
        lemma_prev_word_through_blanks(text, l, l2 - 1);
        // At line `l` itself: the tail of the line past the run is all
        // whitespace, so the search lands on the run's last character.
        lemma_back_over_spaces_is(line, e - 1, line.len() - 1);
        lemma_run_start_is(line, c, e - 1, cls);
    }
}

} // verus!
