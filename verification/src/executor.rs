use vstd::prelude::*;

use vstd::string::{StrSliceExecFns, StringExecFns};

use crate::buffer::{Buffer, CursorPosition};
use crate::command::{Command, Motion};
use crate::motion::{lemma_motion_target_valid, motion_target};

verus! {

/// The message carried by the error for a command applied to a buffer
/// whose cursor is off its text.
pub open spec fn invalid_buffer_msg() -> Seq<char> {
    "motion applied to a structurally invalid buffer"@
}

/// The motion engine's error: reserved for commands applied to a buffer
/// whose cursor is not on a valid position. It is unreachable through the
/// documented command set, which keeps every buffer well formed.
#[derive(Debug)]
pub enum VimError {
    InvalidMotion(String),
}

/// The motion a command wraps.
pub open spec fn motion_of(command: Command) -> Motion {
    match command {
        Command::Motion(m) => m,
    }
}

/// The motion resolution engine: resolves a command against a buffer and
/// moves the buffer's cursor. It never edits the text.
pub struct Executor;

impl Executor {
    /// Applies a command to the buffer. On a well-formed buffer the cursor
    /// moves to the motion's target, the text never changes, and the
    /// buffer stays well formed; a malformed buffer is refused untouched.
    pub fn execute(buffer: &mut Buffer, command: Command) -> (r: Result<(), VimError>)
        ensures
            old(buffer).wf() ==> {
                &&& r is Ok
                &&& final(buffer).text() == old(buffer).text()
                &&& (
                    final(buffer).spec_cursor().line as int,
                    final(buffer).spec_cursor().column as int,
                ) == motion_target(
                    old(buffer).text(),
                    old(buffer).spec_cursor().line as int,
                    old(buffer).spec_cursor().column as int,
                    motion_of(command),
                )
                &&& final(buffer).wf()
            },
            !old(buffer).wf() ==> (r matches Err(VimError::InvalidMotion(m)) && m@
                == invalid_buffer_msg() && *final(buffer) == *old(buffer)),
    {
        match command {
            Command::Motion(motion) => Self::execute_motion(buffer, motion),
        }
    }

    /// Resolves one motion and moves the cursor, with the same contract as
    /// `execute`.
    fn execute_motion(buffer: &mut Buffer, motion: Motion) -> (r: Result<(), VimError>)
        ensures
            old(buffer).wf() ==> {
                &&& r is Ok
                &&& final(buffer).text() == old(buffer).text()
                &&& (
                    final(buffer).spec_cursor().line as int,
                    final(buffer).spec_cursor().column as int,
                ) == motion_target(
                    old(buffer).text(),
                    old(buffer).spec_cursor().line as int,
                    old(buffer).spec_cursor().column as int,
                    motion,
                )
                &&& final(buffer).wf()
            },
            !old(buffer).wf() ==> (r matches Err(VimError::InvalidMotion(m)) && m@
                == invalid_buffer_msg() && *final(buffer) == *old(buffer)),
    {
        if !buffer.cursor_valid() {
            return Err(
                VimError::InvalidMotion(
                    String::from_str("motion applied to a structurally invalid buffer"),
                ),
            );
        }
        let new_position = match motion {
            Motion::Left => Self::move_left(buffer),
            Motion::Down => Self::move_down(buffer),
            Motion::Up => Self::move_up(buffer),
            Motion::Right => Self::move_right(buffer),
            Motion::WordForward => buffer.find_next_word_start(),
            Motion::WordBackward => buffer.find_prev_word_start(),
            Motion::WordEnd => buffer.find_word_end(),
            Motion::LineStart => CursorPosition::new(buffer.cursor().line, 0),
            Motion::LineEnd => {
                let line_len = buffer.current_line_len();
                let col = if line_len > 0 {
                    line_len - 1
                } else {
                    0
                };
                CursorPosition::new(buffer.cursor().line, col)
            },
            Motion::FileStart => CursorPosition::new(0, 0),
            Motion::FileEnd => {
                let last_line = buffer.line_count() - 1;
                CursorPosition::new(last_line, 0)
            },
        };
        proof {
            lemma_motion_target_valid(
                buffer.text(),
                buffer.spec_cursor().line as int,
                buffer.spec_cursor().column as int,
                motion,
            );
        }
        buffer.set_cursor(new_position);
        Ok(())
    }

    /// One column left, or unchanged at column 0: no wrap to the previous
    /// line.
    fn move_left(buffer: &Buffer) -> (r: CursorPosition)
        requires
            buffer.wf(),
        ensures
            (r.line as int, r.column as int) == motion_target(
                buffer.text(),
                buffer.spec_cursor().line as int,
                buffer.spec_cursor().column as int,
                Motion::Left,
            ),
    {
        let cursor = buffer.cursor();
        if cursor.column > 0 {
            CursorPosition::new(cursor.line, cursor.column - 1)
        } else {
            cursor
        }
    }

    /// One column right, or unchanged on the line's last character: no
    /// wrap to the next line.
    fn move_right(buffer: &Buffer) -> (r: CursorPosition)
        requires
            buffer.wf(),
        ensures
            (r.line as int, r.column as int) == motion_target(
                buffer.text(),
                buffer.spec_cursor().line as int,
                buffer.spec_cursor().column as int,
                Motion::Right,
            ),
    {
        let cursor = buffer.cursor();
        let line_len = buffer.current_line_len();
        if line_len == 0 {
            return cursor;
        }
        let max_col = line_len - 1;
        if cursor.column < max_col {
            CursorPosition::new(cursor.line, cursor.column + 1)
        } else {
            cursor
        }
    }

    /// One line up when there is one, the column clamped to the new line;
    /// unchanged on line 0.
    fn move_up(buffer: &Buffer) -> (r: CursorPosition)
        requires
            buffer.wf(),
        ensures
            (r.line as int, r.column as int) == motion_target(
                buffer.text(),
                buffer.spec_cursor().line as int,
                buffer.spec_cursor().column as int,
                Motion::Up,
            ),
    {
        let cursor = buffer.cursor();
        if cursor.line > 0 {
            let new_line = cursor.line - 1;
            let line_len = match buffer.get_line(new_line) {
                Some(l) => l.unicode_len(),
                None => 0,
            };
            let max_col = if line_len > 0 {
                line_len - 1
            } else {
                0
            };
            let new_col = if cursor.column < max_col {
                cursor.column
            } else {
                max_col
            };
            CursorPosition::new(new_line, new_col)
        } else {
            cursor
        }
    }

    /// One line down when there is one, the column clamped to the new
    /// line; unchanged on the last line.
    fn move_down(buffer: &Buffer) -> (r: CursorPosition)
        requires
            buffer.wf(),
        ensures
            (r.line as int, r.column as int) == motion_target(
                buffer.text(),
                buffer.spec_cursor().line as int,
                buffer.spec_cursor().column as int,
                Motion::Down,
            ),
    {
        let cursor = buffer.cursor();
        if cursor.line < buffer.line_count() - 1 {
            let new_line = cursor.line + 1;
            let line_len = match buffer.get_line(new_line) {
                Some(l) => l.unicode_len(),
                None => 0,
            };
            let max_col = if line_len > 0 {
                line_len - 1
            } else {
                0
            };
            let new_col = if cursor.column < max_col {
                cursor.column
            } else {
                max_col
            };
            CursorPosition::new(new_line, new_col)
        } else {
            cursor
        }
    }
}

} // verus!
