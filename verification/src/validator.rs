use vstd::prelude::*;

use vstd::string::StringExecFns;

use crate::buffer::CursorPosition;
use crate::command::{key_label, Command};
use crate::executor::motion_of;
use crate::strutil::{dec_rep, usize_to_string};

verus! {

/// The verdict on a submitted command sequence and final cursor position.
#[derive(Clone, Debug, PartialEq)]
pub enum ValidationResult {
    Correct,
    Incorrect { feedback: String },
    WrongPosition { feedback: String },
}

/// The message for a submission with the wrong number of commands.
pub open spec fn count_msg(expected: nat, got: nat) -> Seq<char> {
    "Expected "@ + dec_rep(expected) + " commands, but got "@ + dec_rep(got)
        + ". Try using only the commands taught in this lesson."@
}

/// The message for a wrong command at 1-based position `i`.
pub open spec fn wrong_command_msg(i: nat, expected: Command, got: Command) -> Seq<char> {
    "Command "@ + dec_rep(i) + " was incorrect. Expected '"@ + key_label(motion_of(expected))
        + "', got '"@ + key_label(motion_of(got)) + "'."@
}

/// The message for right commands that end on the wrong position.
pub open spec fn wrong_position_msg(f: CursorPosition, t: CursorPosition) -> Seq<char> {
    "Commands were correct, but cursor is at position ("@ + dec_rep(f.line as nat) + ", "@
        + dec_rep(f.column as nat) + "). Target is ("@ + dec_rep(t.line as nat) + ", "@ + dec_rep(
        t.column as nat,
    ) + ")."@
}

/// The first index at or after `i` where the two sequences differ, or
/// their common length when they agree everywhere from `i` on.
pub open spec fn first_diff(e: Seq<Command>, a: Seq<Command>, i: int) -> int
    decreases e.len() - i,
{
    if i < e.len() && i < a.len() && e[i] == a[i] {
        first_diff(e, a, i + 1)
    } else {
        i
    }
}

/// Judges a learner's submission against a task's solution.
pub struct Validator;

impl Validator {
    /// A validator; it keeps no state.
    pub fn new() -> (r: Self) {
        Self
    }

    /// Compares the submitted commands and final cursor with the expected
    /// ones, in order: a wrong count, then the first wrong command (cited
    /// with 1-based index and both key labels), then a wrong final
    /// position (cited with both coordinate pairs), and otherwise the
    /// submission is correct. Strict sequence equality: no credit for an
    /// equivalent solution of another length.
    pub fn validate(
        &self,
        expected: &[Command],
        actual: &[Command],
        final_position: CursorPosition,
        target_position: CursorPosition,
    ) -> (r: ValidationResult)
        ensures
            expected@.len() != actual@.len() ==> (r matches ValidationResult::Incorrect {
                feedback,
            } && feedback@ == count_msg(expected@.len(), actual@.len())),
            expected@.len() == actual@.len() && first_diff(expected@, actual@, 0)
                < expected@.len() ==> (r matches ValidationResult::Incorrect { feedback }
                && feedback@ == wrong_command_msg(
                (first_diff(expected@, actual@, 0) + 1) as nat,
                expected@[first_diff(expected@, actual@, 0)],
                actual@[first_diff(expected@, actual@, 0)],
            )),
            expected@ == actual@ && final_position != target_position ==> (r
                matches ValidationResult::WrongPosition { feedback } && feedback@
                == wrong_position_msg(final_position, target_position)),
            expected@ == actual@ && final_position == target_position ==> r
                == ValidationResult::Correct,
    {
        if actual.len() != expected.len() {
            let mut msg = String::from_str("Expected ");
            let ecount = usize_to_string(expected.len());
            msg.append(ecount.as_str());
            msg.append(" commands, but got ");
            let acount = usize_to_string(actual.len());
            msg.append(acount.as_str());
            msg.append(". Try using only the commands taught in this lesson.");
            proof {
                assert(msg@ =~= count_msg(expected@.len(), actual@.len()));
            }
            return ValidationResult::Incorrect { feedback: msg };
        }
        proof {
            lemma_first_diff(expected@, actual@, 0);
        }
        let mut i: usize = 0;
        while i < expected.len()
            invariant
                0 <= i as int <= expected@.len(),
                expected@.len() == actual@.len(),
                first_diff(expected@, actual@, 0) == first_diff(expected@, actual@, i as int),
            decreases expected@.len() - i as int,
        {
            let exp = expected[i];
            let act = actual[i];
            if exp != act {
                let exp_motion = exp.as_motion().unwrap();
                let act_motion = act.as_motion().unwrap();
                let mut msg = String::from_str("Command ");
                let pos = usize_to_string(i + 1);
                msg.append(pos.as_str());
                msg.append(" was incorrect. Expected '");
                msg.append(exp_motion.to_key_str());
                msg.append("', got '");
                msg.append(act_motion.to_key_str());
                msg.append("'.");
                proof {
                    assert(msg@ =~= wrong_command_msg((i + 1) as nat, exp, act));
                }
                return ValidationResult::Incorrect { feedback: msg };
            }
            i += 1;
        }
        proof {
            assert(expected@ =~= actual@);
        }
        if final_position.line != target_position.line || final_position.column
            != target_position.column {
            let mut msg = String::from_str("Commands were correct, but cursor is at position (");
            let fl = usize_to_string(final_position.line);
            msg.append(fl.as_str());
            msg.append(", ");
            let fc = usize_to_string(final_position.column);
            msg.append(fc.as_str());
            msg.append("). Target is (");
            let tl = usize_to_string(target_position.line);
            msg.append(tl.as_str());
            msg.append(", ");
            let tc = usize_to_string(target_position.column);
            msg.append(tc.as_str());
            msg.append(").");
            proof {
                assert(msg@ =~= wrong_position_msg(final_position, target_position));
            }
            return ValidationResult::WrongPosition { feedback: msg };
        }
        ValidationResult::Correct
    }
}

impl Default for Validator {
    /// The same as `Validator::new`.
    fn default() -> (r: Self)
        ensures
            r == (Validator {  }),
    {
        Self::new()
    }
}

/// On sequences of one length, `first_diff` stays within that length, the
/// sequences agree before it, and they differ at it when it is not the
/// length; agreeing everywhere means the sequences are equal.
proof fn lemma_first_diff(e: Seq<Command>, a: Seq<Command>, i: int)
    requires
        e.len() == a.len(),
        0 <= i <= e.len(),
    ensures
        i <= first_diff(e, a, i) <= e.len(),
        forall|j: int| i <= j < first_diff(e, a, i) ==> e[j] == a[j],
        first_diff(e, a, i) < e.len() ==> e[first_diff(e, a, i)] != a[first_diff(e, a, i)],
    decreases e.len() - i,
{
    if i < e.len() && e[i] == a[i] {
        lemma_first_diff(e, a, i + 1);
    }
}

} // verus!
