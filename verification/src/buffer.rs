use vstd::prelude::*;

use vstd::string::StrSliceExecFns;

use crate::chars::{char_whitespace, class_of, classify, CharClass};
use crate::motion::{
    first_word_from, next_word_end_from, next_word_start_in_line, prev_word_from,
    word_backward_target, word_end_target, word_forward_target,
};
use crate::scan::{
    back_over_spaces, find_char, lemma_find_char_is, lemma_run_end, lines_of, run_end, run_start,
    split_lines, strip_cr,
};

verus! {

/// A position in a buffer: a line index and a column index, both counted
/// from zero in code points.
#[derive(Clone, Copy, Debug, PartialEq, Eq, Structural)]
pub struct CursorPosition {
    pub line: usize,
    pub column: usize,
}

impl CursorPosition {
    pub fn new(line: usize, column: usize) -> (r: Self)
        ensures
            r == (CursorPosition { line, column }),
    {
        Self { line, column }
    }
}

/// The views of a sequence of lines, character by character.
pub open spec fn views_of(lines: Seq<String>) -> Seq<Seq<char>> {
    Seq::new(lines.len(), |i: int| lines[i]@)
}

/// Whether `(l, c)` is a position the cursor may rest on: a line of the
/// text, and a column on one of its characters, or column 0 if the line is
/// empty. The cursor never rests one past the end of a non-empty line.
pub open spec fn valid_pos(text: Seq<Seq<char>>, l: int, c: int) -> bool {
    &&& 0 <= l < text.len()
    &&& if text[l].len() == 0 {
        c == 0
    } else {
        0 <= c < text[l].len()
    }
}

/// Line-structured text plus one cursor. At least one line always exists:
/// an empty buffer is represented as a single empty line. The text is
/// read-only; only the cursor moves.
#[derive(Clone, Debug)]
pub struct Buffer {
    lines: Vec<String>,
    cursor: CursorPosition,
}

impl Buffer {
    /// The buffer's text as a sequence of lines of characters.
    pub closed spec fn text(&self) -> Seq<Seq<char>> {
        views_of(self.lines@)
    }

    /// The buffer's cursor.
    pub closed spec fn spec_cursor(&self) -> CursorPosition {
        self.cursor
    }

    /// The structural invariant: one line at least, and the cursor resting
    /// on a valid position of the text.
    pub open spec fn wf(&self) -> bool {
        &&& self.text().len() >= 1
        &&& valid_pos(
            self.text(),
            self.spec_cursor().line as int,
            self.spec_cursor().column as int,
        )
    }

    /// Builds a buffer from raw text, split on line breaks, with the cursor
    /// at the origin. An empty text still yields one empty line.
    pub fn new(text: &str) -> (r: Buffer)
        ensures
            r.text() == lines_of(text@),
            r.spec_cursor() == (CursorPosition { line: 0, column: 0 }),
            r.wf(),
    {
        let n = text.unicode_len();
        let mut lines: Vec<String> = Vec::new();
        let mut start: usize = 0;
        let mut i: usize = 0;
        proof {
            assert(text@.skip(0) =~= text@);
        }
        while i < n
            invariant
                0 <= start as int <= i as int <= n as int,
                n == text@.len(),
                forall|j: int| start as int <= j < i as int ==> text@[j] != '\n',
                split_lines(text@) =~= views_of(lines@) + split_lines(
                    text@.skip(start as int),
                ),
            decreases n - i,
        {
            if text.get_char(i) == '\n' {
                let end = if i > start && text.get_char(i - 1) == '\r' {
                    i - 1
                } else {
                    i
                };
                let piece = text.substring_char(start, end);
                proof {
                    let s = text@;
                    let t = s.skip(start as int);
                    assert(forall|j: int| 0 <= j < i as int - start as int ==> t[j] != '\n');
                    lemma_find_char_is(t, 0, i as int - start as int, '\n');
                    assert(t.take(i as int - start as int) =~= s.subrange(
                        start as int,
                        i as int,
                    ));
                    assert(strip_cr(s.subrange(start as int, i as int)) =~= piece@);
                    assert(t.skip(i as int - start as int + 1) =~= s.skip(i as int + 1));
                    assert(split_lines(t) =~= seq![piece@] + split_lines(s.skip(i as int + 1)));
                }
                let owned = piece.to_owned();
                lines.push(owned);
                proof {
                    assert(views_of(lines@) =~= views_of(lines@.drop_last()).push(piece@));
                }
                start = i + 1;
            }
            i += 1;
        }
        proof {
            let s = text@;
            let t = s.skip(start as int);
            lemma_find_char_is(t, 0, t.len() as int, '\n');
        }
        if start < n {
            let piece = text.substring_char(start, n);
            proof {
                assert(text@.skip(start as int) =~= piece@);
            }
            let owned = piece.to_owned();
            lines.push(owned);
            proof {
                assert(views_of(lines@) =~= views_of(lines@.drop_last()).push(piece@));
            }
        }
        if lines.len() == 0 {
            lines.push(String::new());
            proof {
                assert(views_of(lines@) =~= seq![Seq::<char>::empty()]);
            }
        }
        let r = Buffer { lines, cursor: CursorPosition::new(0, 0) };
        proof {
            assert(r.text() =~= lines_of(text@));
        }
        r
    }

    /// Builds a buffer from an explicit ordered sequence of lines, with the
    /// cursor at the origin and the same empty-input fallback as `new`.
    pub fn from_lines(lines: Vec<String>) -> (r: Buffer)
        ensures
            r.text() == if lines@.len() == 0 {
                seq![Seq::<char>::empty()]
            } else {
                views_of(lines@)
            },
            r.spec_cursor() == (CursorPosition { line: 0, column: 0 }),
            r.wf(),
    {
        let mut lines = lines;
        if lines.len() == 0 {
            lines.push(String::new());
            proof {
                assert(views_of(lines@) =~= seq![Seq::<char>::empty()]);
            }
        }
        Buffer { lines, cursor: CursorPosition::new(0, 0) }
    }

    /// A copy of the buffer, with the same text and cursor.
    pub(crate) fn duplicate(&self) -> (r: Buffer)
        ensures
            r.text() == self.text(),
            r.spec_cursor() == self.spec_cursor(),
    {
        let mut lines: Vec<String> = Vec::new();
        let mut i: usize = 0;
        while i < self.lines.len()
            invariant
                i as int <= self.lines@.len(),
                views_of(lines@) =~= views_of(self.lines@.take(i as int)),
            decreases self.lines@.len() - i as int,
        {
            let owned = self.lines[i].clone();
            lines.push(owned);
            proof {
                assert(views_of(lines@) =~= views_of(lines@.drop_last()).push(
                    self.lines@[i as int]@,
                ));
                assert(views_of(self.lines@.take(i as int + 1)) =~= views_of(
                    self.lines@.take(i as int),
                ).push(self.lines@[i as int]@));
            }
            i += 1;
        }
        proof {
            assert(self.lines@.take(self.lines@.len() as int) =~= self.lines@);
            assert(views_of(lines@) =~= self.text());
        }
        Buffer { lines, cursor: self.cursor }
    }

    /// The current cursor position.
    pub fn cursor(&self) -> (r: CursorPosition)
        ensures
            r == self.spec_cursor(),
    {
        self.cursor
    }

    /// Moves the cursor, without validation: the caller is responsible for
    /// keeping it on a valid position.
    pub fn set_cursor(&mut self, position: CursorPosition)
        ensures
            final(self).text() == old(self).text(),
            final(self).spec_cursor() == position,
    {
        self.cursor = position;
    }

    /// All lines of the buffer.
    pub fn lines(&self) -> (r: &[String])
        ensures
            views_of(r@) == self.text(),
    {
        self.lines.as_slice()
    }

    /// How many lines the buffer holds.
    pub fn line_count(&self) -> (r: usize)
        ensures
            r == self.text().len(),
    {
        self.lines.len()
    }

    /// The line at `index`, or nothing when `index` is out of range.
    pub fn get_line(&self, index: usize) -> (r: Option<&str>)
        ensures
            match r {
                Some(s) => index < self.text().len() && s@ == self.text()[index as int],
                None => index >= self.text().len(),
            },
    {
        if index < self.lines.len() {
            Some(self.lines[index].as_str())
        } else {
            None
        }
    }

    /// The line under the cursor.
    pub fn current_line(&self) -> (r: &str)
        requires
            self.spec_cursor().line < self.text().len(),
        ensures
            r@ == self.text()[self.spec_cursor().line as int],
    {
        self.lines[self.cursor.line].as_str()
    }

    /// Whether the cursor rests on a valid position of the text: the
    /// runtime form of the structural invariant.
    pub(crate) fn cursor_valid(&self) -> (r: bool)
        ensures
            r == self.wf(),
    {
        let n = self.lines.len();
        if n == 0 {
            return false;
        }
        if self.cursor.line >= n {
            return false;
        }
        let len = self.lines[self.cursor.line].as_str().unicode_len();
        if len == 0 {
            self.cursor.column == 0
        } else {
            self.cursor.column < len
        }
    }

    /// Whether `c` is alphanumeric or an underscore: the class of
    /// characters a word is made of.
    fn is_word_char(c: char) -> (r: bool)
        ensures
            r == crate::chars::is_word_char(c),
    {
        c.is_alphanumeric() || c == '_'
    }

    /// Whether `c` is whitespace, the separator class.
    fn is_whitespace(c: char) -> (r: bool)
        ensures
            r == char_whitespace(c),
    {
        c.is_whitespace()
    }

    /// The position where word-forward puts the cursor: the next token
    /// start, searching later lines when the current line is exhausted.
    pub fn find_next_word_start(&self) -> (r: CursorPosition)
        requires
            self.wf(),
        ensures
            (r.line as int, r.column as int) == word_forward_target(
                self.text(),
                self.spec_cursor().line as int,
                self.spec_cursor().column as int,
            ),
    {
        let ghost text = self.text();
        let ghost l = self.spec_cursor().line as int;
        let ghost c0 = self.spec_cursor().column as int;
        let line = self.current_line();
        let ghost lt = line@;
        let len = line.unicode_len();
        let mut col = self.cursor.column;

        if col >= len {
            return self.find_next_line_first_word();
        }
        let k = classify(line.get_char(col));
        if k != CharClass::Space {
            while col < len && classify(line.get_char(col)) == k
                invariant
                    c0 <= col as int <= len as int,
                    len == lt.len(),
                    lt == line@,
                    k == class_of(lt[c0]),
                    run_end(lt, c0, k) == run_end(lt, col as int, k),
                decreases len - col,
            {
                col += 1;
            }
            assert(col as int == run_end(lt, c0, k));
        }
        let ghost after_run = col as int;
        while col < len && classify(line.get_char(col)) == CharClass::Space
            invariant
                after_run <= col as int <= len as int,
                len == lt.len(),
                lt == line@,
                run_end(lt, after_run, CharClass::Space) == run_end(
                    lt,
                    col as int,
                    CharClass::Space,
                ),
            decreases len - col,
        {
            col += 1;
        }
        assert(col as int == next_word_start_in_line(lt, c0));
        if col >= len {
            self.find_next_line_first_word()
        } else {
            CursorPosition::new(self.cursor.line, col)
        }
    }

    /// The first non-whitespace character of the first line after the
    /// cursor's that has one, or the buffer's last resting position.
    fn find_next_line_first_word(&self) -> (r: CursorPosition)
        requires
            self.wf(),
        ensures
            (r.line as int, r.column as int) == first_word_from(
                self.text(),
                self.spec_cursor().line + 1,
            ),
    {
        let ghost text = self.text();
        let count = self.lines.len();
        let mut li = self.cursor.line + 1;
        while li < count
            invariant
                self.spec_cursor().line + 1 <= li as int <= text.len(),
                count == self.lines@.len(),
                text == self.text(),
                self.wf(),
                first_word_from(text, self.spec_cursor().line + 1) == first_word_from(
                    text,
                    li as int,
                ),
            decreases self.lines@.len() - li as int,
        {
            let line = self.lines[li].as_str();
            let ghost lt = line@;
            proof {
                assert(lt == text[li as int]);
            }
            let len = line.unicode_len();
            let mut col: usize = 0;
            while col < len && classify(line.get_char(col)) == CharClass::Space
                invariant
                    0 <= col as int <= len as int,
                    len == lt.len(),
                    lt == line@,
                    run_end(lt, 0, CharClass::Space) == run_end(lt, col as int, CharClass::Space),
                decreases len - col,
            {
                col += 1;
            }
            assert(col as int == run_end(lt, 0, CharClass::Space));
            if col < len {
                return CursorPosition::new(li, col);
            }
            li += 1;
        }
        let last = self.lines.len() - 1;
        let lastlen = self.lines[last].as_str().unicode_len();
        let col = if lastlen > 0 {
            lastlen - 1
        } else {
            0
        };
        CursorPosition::new(last, col)
    }

    /// The position where word-backward puts the cursor: back to the start
    /// of the token under or before the cursor, searching earlier lines
    /// when only whitespace lies before it.
    pub fn find_prev_word_start(&self) -> (r: CursorPosition)
        requires
            self.wf(),
        ensures
            (r.line as int, r.column as int) == word_backward_target(
                self.text(),
                self.spec_cursor().line as int,
                self.spec_cursor().column as int,
            ),
    {
        let ghost text = self.text();
        let ghost c0 = self.spec_cursor().column as int;
        let mut col = self.cursor.column;
        if col == 0 {
            return self.find_prev_line_last_word();
        }
        let line = self.current_line();
        let ghost lt = line@;
        col = col - 1;
        while col > 0 && classify(line.get_char(col)) == CharClass::Space
            invariant
                0 <= col as int <= c0 - 1,
                c0 <= lt.len(),
                lt == line@,
                back_over_spaces(lt, c0 - 1) == back_over_spaces(lt, col as int),
            decreases col,
        {
            col -= 1;
        }
        assert(col as int == back_over_spaces(lt, c0 - 1));
        let k = classify(line.get_char(col));
        if col == 0 && k == CharClass::Space {
            return self.find_prev_line_last_word();
        }
        let ghost b = col as int;
        while col > 0 && classify(line.get_char(col - 1)) == k
            invariant
                0 <= col as int <= b,
                b < lt.len(),
                lt == line@,
                run_start(lt, b, k) == run_start(lt, col as int, k),
            decreases col,
        {
            col -= 1;
        }
        assert(col as int == run_start(lt, b, k));
        CursorPosition::new(self.cursor.line, col)
    }

    /// The start of the last token of the nearest earlier line that holds
    /// one, or the origin when none does.
    fn find_prev_line_last_word(&self) -> (r: CursorPosition)
        requires
            self.wf(),
        ensures
            (r.line as int, r.column as int) == prev_word_from(
                self.text(),
                self.spec_cursor().line - 1,
            ),
    {
        let ghost text = self.text();
        if self.cursor.line == 0 {
            return CursorPosition::new(0, 0);
        }
        let mut li = self.cursor.line - 1;
        loop
            invariant
                0 <= (li as int) < text.len(),
                text == self.text(),
                self.wf(),
                prev_word_from(text, self.spec_cursor().line - 1) == prev_word_from(
                    text,
                    li as int,
                ),
            decreases li,
        {
            let line = self.lines[li].as_str();
            let ghost lt = line@;
            proof {
                assert(lt == text[li as int]);
            }
            let len = line.unicode_len();
            if len > 0 {
                let mut col = len - 1;
                while col > 0 && classify(line.get_char(col)) == CharClass::Space
                    invariant
                        0 <= col as int <= len - 1,
                        len == lt.len(),
                        lt == line@,
                        back_over_spaces(lt, len - 1) == back_over_spaces(lt, col as int),
                    decreases col,
                {
                    col -= 1;
                }
                assert(col as int == back_over_spaces(lt, len - 1));
                let k = classify(line.get_char(col));
                if k != CharClass::Space {
                    let ghost b = col as int;
                    while col > 0 && classify(line.get_char(col - 1)) == k
                        invariant
                            0 <= col as int <= b,
                            b < lt.len(),
                            lt == line@,
                            run_start(lt, b, k) == run_start(lt, col as int, k),
                        decreases col,
                    {
                        col -= 1;
                    }
                    assert(col as int == run_start(lt, b, k));
                    return CursorPosition::new(li, col);
                }
            }
            if li == 0 {
                return CursorPosition::new(0, 0);
            }
            li -= 1;
        }
    }

    /// The position where word-end puts the cursor: the last character of
    /// the current or next token, searching later lines when the current
    /// line is exhausted.
    pub fn find_word_end(&self) -> (r: CursorPosition)
        requires
            self.wf(),
        ensures
            (r.line as int, r.column as int) == word_end_target(
                self.text(),
                self.spec_cursor().line as int,
                self.spec_cursor().column as int,
            ),
    {
        let ghost text = self.text();
        let ghost c0 = self.spec_cursor().column as int;
        let line = self.current_line();
        let ghost lt = line@;
        let len = line.unicode_len();
        let mut col = self.cursor.column;
        if col >= len {
            return self.find_next_line_word_end();
        }
        col += 1;
        while col < len && classify(line.get_char(col)) == CharClass::Space
            invariant
                c0 + 1 <= col as int <= len as int,
                len == lt.len(),
                lt == line@,
                run_end(lt, c0 + 1, CharClass::Space) == run_end(lt, col as int, CharClass::Space),
            decreases len - col,
        {
            col += 1;
        }
        assert(col as int == run_end(lt, c0 + 1, CharClass::Space));
        if col >= len {
            return self.find_next_line_word_end();
        }
        let ghost j = col as int;
        let k = classify(line.get_char(col));
        while col < len && classify(line.get_char(col)) == k
            invariant
                j <= col as int <= len as int,
                len == lt.len(),
                lt == line@,
                k == class_of(lt[j]),
                run_end(lt, j, k) == run_end(lt, col as int, k),
            decreases len - col,
        {
            col += 1;
        }
        assert(col as int == run_end(lt, j, k));
        proof {
            lemma_run_end(lt, j, k);
        }
        CursorPosition::new(self.cursor.line, col - 1)
    }

    /// The end of the first token of the first line after the cursor's
    /// that holds one, or the buffer's last resting position.
    fn find_next_line_word_end(&self) -> (r: CursorPosition)
        requires
            self.wf(),
        ensures
            (r.line as int, r.column as int) == next_word_end_from(
                self.text(),
                self.spec_cursor().line + 1,
            ),
    {
        let ghost text = self.text();
        let count = self.lines.len();
        let mut li = self.cursor.line + 1;
        while li < count
            invariant
                self.spec_cursor().line + 1 <= li as int <= text.len(),
                count == self.lines@.len(),
                text == self.text(),
                self.wf(),
                next_word_end_from(text, self.spec_cursor().line + 1) == next_word_end_from(
                    text,
                    li as int,
                ),
            decreases self.lines@.len() - li as int,
        {
            let line = self.lines[li].as_str();
            let ghost lt = line@;
            proof {
                assert(lt == text[li as int]);
            }
            let len = line.unicode_len();
            let mut col: usize = 0;
            while col < len && classify(line.get_char(col)) == CharClass::Space
                invariant
                    0 <= col as int <= len as int,
                    len == lt.len(),
                    lt == line@,
                    run_end(lt, 0, CharClass::Space) == run_end(lt, col as int, CharClass::Space),
                decreases len - col,
            {
                col += 1;
            }
            assert(col as int == run_end(lt, 0, CharClass::Space));
            if col < len {
                let ghost j = col as int;
                let k = classify(line.get_char(col));
                while col < len && classify(line.get_char(col)) == k
                    invariant
                        j <= col as int <= len as int,
                        len == lt.len(),
                        lt == line@,
                        k == class_of(lt[j]),
                        run_end(lt, j, k) == run_end(lt, col as int, k),
                    decreases len - col,
                {
                    col += 1;
                }
                assert(col as int == run_end(lt, j, k));
                proof {
                    lemma_run_end(lt, j, k);
                }
                return CursorPosition::new(li, col - 1);
            }
            li += 1;
        }
        let last = self.lines.len() - 1;
        let lastlen = self.lines[last].as_str().unicode_len();
        let col = if lastlen > 0 {
            lastlen - 1
        } else {
            0
        };
        CursorPosition::new(last, col)
    }

    /// The length of the line under the cursor, in code points.
    pub fn current_line_len(&self) -> (r: usize)
        requires
            self.spec_cursor().line < self.text().len(),
        ensures
            r == self.text()[self.spec_cursor().line as int].len(),
    {
        self.current_line().unicode_len()
    }
}

} // verus!
