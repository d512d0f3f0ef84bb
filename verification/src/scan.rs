use vstd::prelude::*;

use crate::chars::{class_of, CharClass};

verus! {

/// First index at or after `i` whose character leaves class `cls`, or the
/// line's length if the run reaches the end of the line.
pub open spec fn run_end(line: Seq<char>, i: int, cls: CharClass) -> int
    decreases line.len() - i,
{
    if i < line.len() && class_of(line[i]) == cls {
        run_end(line, i + 1, cls)
    } else {
        i
    }
}

/// `run_end` lands at the first class change at or after `i` (or at the end
/// of the line), and everything before it belongs to the run.
pub(crate) proof fn lemma_run_end(line: Seq<char>, i: int, cls: CharClass)
    requires
        0 <= i <= line.len(),
    ensures
        i <= run_end(line, i, cls) <= line.len(),
        forall|j: int| i <= j < run_end(line, i, cls) ==> class_of(line[j]) == cls,
        run_end(line, i, cls) < line.len() ==> class_of(line[run_end(line, i, cls)]) != cls,
    decreases line.len() - i,
{
    if i < line.len() && class_of(line[i]) == cls {
        lemma_run_end(line, i + 1, cls);
    }
}

/// Index reached from `i` by stepping left while the character under the
/// current index is whitespace; never steps below 0.
pub open spec fn back_over_spaces(line: Seq<char>, i: int) -> int
    decreases i,
{
    if i > 0 && class_of(line[i]) == CharClass::Space {
        back_over_spaces(line, i - 1)
    } else {
        i
    }
}

/// `back_over_spaces` lands on the nearest index at or before `i` that is
/// not whitespace, or on 0; everything strictly between is whitespace.
pub(crate) proof fn lemma_back_over_spaces(line: Seq<char>, i: int)
    requires
        0 <= i < line.len(),
    ensures
        0 <= back_over_spaces(line, i) <= i,
        forall|j: int|
            back_over_spaces(line, i) < j <= i ==> class_of(line[j]) == CharClass::Space,
        back_over_spaces(line, i) > 0 ==> class_of(line[back_over_spaces(line, i)])
            != CharClass::Space,
    decreases i,
{
    if i > 0 && class_of(line[i]) == CharClass::Space {
        lemma_back_over_spaces(line, i - 1);
    }
}

/// Start of the same-class run that contains `i`: steps left while the
/// character just before the current index still belongs to `cls`.
pub open spec fn run_start(line: Seq<char>, i: int, cls: CharClass) -> int
    decreases i,
{
    if i > 0 && class_of(line[i - 1]) == cls {
        run_start(line, i - 1, cls)
    } else {
        i
    }
}

/// `run_start` lands at the first index of the run: the characters from it
/// up to `i` all belong to `cls`'s run, and the one before it (if any) does
/// not.
pub(crate) proof fn lemma_run_start(line: Seq<char>, i: int, cls: CharClass)
    requires
        0 <= i <= line.len(),
    ensures
        0 <= run_start(line, i, cls) <= i,
        forall|j: int| run_start(line, i, cls) <= j < i ==> class_of(line[j]) == cls,
        run_start(line, i, cls) > 0 ==> class_of(line[run_start(line, i, cls) - 1]) != cls,
    decreases i,
{
    if i > 0 && class_of(line[i - 1]) == cls {
        lemma_run_start(line, i - 1, cls);
    }
}

/// First index at or after `i` holding the character `t`, or the text's
/// length if `t` does not occur there.
pub open spec fn find_char(s: Seq<char>, i: int, t: char) -> int
    decreases s.len() - i,
{
    if i < s.len() && s[i] != t {
        find_char(s, i + 1, t)
    } else {
        i
    }
}

/// `find_char` lands on the first occurrence at or after `i`, or on the end.
proof fn lemma_find_char(s: Seq<char>, i: int, t: char)
    requires
        0 <= i <= s.len(),
    ensures
        i <= find_char(s, i, t) <= s.len(),
        forall|j: int| i <= j < find_char(s, i, t) ==> s[j] != t,
        find_char(s, i, t) < s.len() ==> s[find_char(s, i, t)] == t,
    decreases s.len() - i,
{
    if i < s.len() && s[i] != t {
        lemma_find_char(s, i + 1, t);
    }
}

/// An index before which `t` never occurs, and which holds `t` or is the
/// end, is exactly where `find_char` lands.
pub(crate) proof fn lemma_find_char_is(s: Seq<char>, i: int, k: int, t: char)
    requires
        0 <= i <= k <= s.len(),
        forall|j: int| i <= j < k ==> s[j] != t,
        k < s.len() ==> s[k] == t,
    ensures
        find_char(s, i, t) == k,
    decreases k - i,
{
    if i < k {
        lemma_find_char_is(s, i + 1, k, t);
    }
}

/// A carriage return that ends a line fragment belongs to the line break,
/// not to the line.
pub open spec fn strip_cr(t: Seq<char>) -> Seq<char> {
    if t.len() > 0 && t[t.len() - 1] == '\r' {
        t.drop_last()
    } else {
        t
    }
}

/// The line fragments of a text: split at every newline, with a carriage
/// return immediately before a newline dropped, and with a final line
/// ending producing no extra empty fragment.
pub open spec fn split_lines(s: Seq<char>) -> Seq<Seq<char>>
    decreases s.len(),
    via split_lines_decreases
{
    if s.len() == 0 {
        Seq::empty()
    } else {
        let k = find_char(s, 0, '\n');
        if k == s.len() {
            seq![s]
        } else {
            seq![strip_cr(s.take(k))] + split_lines(s.skip(k + 1))
        }
    }
}

#[via_fn]
proof fn split_lines_decreases(s: Seq<char>) {
    if s.len() > 0 {
        lemma_find_char(s, 0, '\n');
    }
}

/// The lines of a buffer built from a text: as `split_lines`, except that an
/// empty text still yields one empty line.
pub open spec fn lines_of(s: Seq<char>) -> Seq<Seq<char>> {
    if split_lines(s).len() == 0 {
        seq![Seq::<char>::empty()]
    } else {
        split_lines(s)
    }
}

} // verus!
