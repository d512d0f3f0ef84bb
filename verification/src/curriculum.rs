use vstd::prelude::*;

use vstd::string::StringExecFns;

use crate::buffer::{Buffer, CursorPosition};
use crate::command::{Command, Motion};
use crate::lesson::{Lesson, Task};

verus! {

/// The first index at or after `i` of a lesson with id `id`, or the
/// catalogue's length when no lesson has it.
pub open spec fn first_lesson_with(s: Seq<Lesson>, id: int, i: int) -> int
    decreases s.len() - i,
{
    if i < s.len() && s[i].id != id {
        first_lesson_with(s, id, i + 1)
    } else {
        i
    }
}

/// The static catalogue of lessons that the trainer offers.
pub struct Curriculum {
    lessons: Vec<Lesson>,
}

impl Curriculum {
    /// The lessons, in the order they are offered.
    pub closed spec fn spec_lessons(&self) -> Seq<Lesson> {
        self.lessons@
    }

    /// The six lessons, with ids 1 through 6 in order.
    pub fn new() -> (r: Self)
        ensures
            r.spec_lessons().len() == 6,
            forall|i: int| 0 <= i < 6 ==> #[trigger] r.spec_lessons()[i].id == i + 1,
    {
        let r = Self {
            lessons: vec![
                Self::lesson_1_basic_movement(),
                Self::lesson_2_word_movement(),
                Self::lesson_3_line_extremes(),
                Self::lesson_4_combining_movements(),
                Self::lesson_5_vertical_movement(),
                Self::lesson_6_complete_practice(),
            ],
        };
        r
    }

    /// The lessons in order.
    pub fn lessons(&self) -> (r: &[Lesson])
        ensures
            r@ == self.spec_lessons(),
    {
        self.lessons.as_slice()
    }

    /// The first lesson carrying `id`, or nothing when no lesson does.
    pub fn get_lesson(&self, id: usize) -> (r: Option<&Lesson>)
        ensures
            match r {
                Some(l) => first_lesson_with(self.spec_lessons(), id as int, 0)
                    < self.spec_lessons().len() && *l == self.spec_lessons()[first_lesson_with(
                    self.spec_lessons(),
                    id as int,
                    0,
                )],
                None => first_lesson_with(self.spec_lessons(), id as int, 0)
                    == self.spec_lessons().len(),
            },
    {
        let ghost s = self.spec_lessons();
        let mut i: usize = 0;
        while i < self.lessons.len()
            invariant
                0 <= i as int <= s.len(),
                s == self.spec_lessons(),
                first_lesson_with(s, id as int, 0) == first_lesson_with(s, id as int, i as int),
            decreases s.len() - i as int,
        {
            if self.lessons[i].id == id {
                return Some(&self.lessons[i]);
            }
            i += 1;
        }
        None
    }

    /// A buffer over `text` with its cursor already placed.
    fn buffer_at(text: &str, line: usize, column: usize) -> (r: Buffer)
        ensures
            r.text() == crate::scan::lines_of(text@),
            r.spec_cursor() == (CursorPosition { line, column }),
    {
        let mut buf = Buffer::new(text);
        buf.set_cursor(CursorPosition::new(line, column));
        buf
    }

    /// Lesson 1: the four single-step motions.
    fn lesson_1_basic_movement() -> (r: Lesson)
        ensures
            r.id == 1,
            r.tasks@.len() == 6,
    {
        let explanation = vec![
            String::from_str("Welcome to VEX! Let's start with the foundation of Vim movement."),
            String::from_str(""),
            String::from_str("The 'h', 'j', 'k', 'l' keys move the cursor:"),
            String::from_str("  h - move left"),
            String::from_str("  j - move down"),
            String::from_str("  k - move up"),
            String::from_str("  l - move right"),
            String::from_str(""),
            String::from_str("These replace the arrow keys and keep your hands on the home row."),
        ];

        let commands = vec![
            Command::Motion(Motion::Left),
            Command::Motion(Motion::Down),
            Command::Motion(Motion::Up),
            Command::Motion(Motion::Right),
        ];

        let buffer_text = "Line one\nLine two\nLine three\nLine four";

        let tasks = vec![
            Task::new(
                String::from_str("Move the cursor right to the 'i' in 'Line' (press l)"),
                Buffer::new(buffer_text),
                CursorPosition::new(0, 1),
                vec![Command::Motion(Motion::Right)],
                vec![
                    String::from_str("Use the 'l' key to move right."),
                    String::from_str("Press 'l' once."),
                    String::from_str("Answer: l"),
                ],
            ),
            Task::new(
                String::from_str("Move the cursor down to 'L' in 'Line two' (press j)"),
                Buffer::new(buffer_text),
                CursorPosition::new(1, 0),
                vec![Command::Motion(Motion::Down)],
                vec![
                    String::from_str("Use the 'j' key to move down."),
                    String::from_str("Press 'j' once."),
                    String::from_str("Answer: j"),
                ],
            ),
            Task::new(
                String::from_str("Move right 3 times to reach 'e' in 'Line one' (press lll)"),
                Buffer::new(buffer_text),
                CursorPosition::new(0, 3),
                vec![
                    Command::Motion(Motion::Right),
                    Command::Motion(Motion::Right),
                    Command::Motion(Motion::Right),
                ],
                vec![
                    String::from_str("Press 'l' three times."),
                    String::from_str("Each 'l' moves right by one character."),
                    String::from_str("Answer: lll"),
                ],
            ),
            Task::new(
                String::from_str("From 'o' in 'one', move down to 't' in 'two' (press j)"),
                Self::buffer_at(buffer_text, 0, 5),
                CursorPosition::new(1, 5),
                vec![Command::Motion(Motion::Down)],
                vec![
                    String::from_str("You need to move down from line one to line two."),
                    String::from_str("Use 'j' to move down one line."),
                    String::from_str("Answer: j"),
                ],
            ),
            Task::new(
                String::from_str("From 'n' in 'Line', move left to 'i' (press h)"),
                Self::buffer_at(buffer_text, 0, 2),
                CursorPosition::new(0, 1),
                vec![Command::Motion(Motion::Left)],
                vec![
                    String::from_str("Use the 'h' key to move left."),
                    String::from_str("Press 'h' once."),
                    String::from_str("Answer: h"),
                ],
            ),
            Task::new(
                String::from_str("From 'L' in 'Line two', move up to 'L' in 'Line one' (press k)"),
                Self::buffer_at(buffer_text, 1, 0),
                CursorPosition::new(0, 0),
                vec![Command::Motion(Motion::Up)],
                vec![
                    String::from_str("Use the 'k' key to move up."),
                    String::from_str("Press 'k' once."),
                    String::from_str("Answer: k"),
                ],
            ),
        ];

        Lesson::new(1, String::from_str("Basic Movement (hjkl)"), explanation, commands, tasks)
    }

    /// Lesson 2: the three word motions.
    fn lesson_2_word_movement() -> (r: Lesson)
        ensures
            r.id == 2,
            r.tasks@.len() == 4,
    {
        let explanation = vec![
            String::from_str("Word-based movement is much faster than moving character by character."),
            String::from_str(""),
            String::from_str("Word movement commands:"),
            String::from_str("  w - move forward to the start of the next word"),
            String::from_str("  b - move backward to the start of the previous word"),
            String::from_str("  e - move forward to the end of the current/next word"),
            String::from_str(""),
            String::from_str("In Vim, punctuation counts as separate words!"),
        ];

        let commands = vec![
            Command::Motion(Motion::WordForward),
            Command::Motion(Motion::WordBackward),
            Command::Motion(Motion::WordEnd),
        ];

        let buffer_text = "The quick brown fox jumps over the lazy dog";

        let tasks = vec![
            Task::new(
                String::from_str("Move to the start of 'quick'"),
                Buffer::new(buffer_text),
                CursorPosition::new(0, 4),
                vec![Command::Motion(Motion::WordForward)],
                vec![
                    String::from_str("Use 'w' to jump to the next word."),
                    String::from_str("Press 'w' once to move from 'The' to 'quick'."),
                    String::from_str("Answer: w"),
                ],
            ),
            Task::new(
                String::from_str("Move to the start of 'fox'"),
                Buffer::new(buffer_text),
                CursorPosition::new(0, 16),
                vec![
                    Command::Motion(Motion::WordForward),
                    Command::Motion(Motion::WordForward),
                    Command::Motion(Motion::WordForward),
                ],
                vec![
                    String::from_str("You need to move forward three words."),
                    String::from_str("Press 'w' three times: The→quick→brown→fox"),
                    String::from_str("Answer: www"),
                ],
            ),
            Task::new(
                String::from_str("Move to the end of 'brown'"),
                Self::buffer_at(buffer_text, 0, 10),
                CursorPosition::new(0, 14),
                vec![Command::Motion(Motion::WordEnd)],
                vec![
                    String::from_str("Use 'e' to jump to the end of a word."),
                    String::from_str("Press 'e' once to move to the end of 'brown'."),
                    String::from_str("Answer: e"),
                ],
            ),
            Task::new(
                String::from_str("Go back to 'quick' from 'fox'"),
                Self::buffer_at(buffer_text, 0, 16),
                CursorPosition::new(0, 4),
                vec![
                    Command::Motion(Motion::WordBackward),
                    Command::Motion(Motion::WordBackward),
                ],
                vec![
                    String::from_str("Use 'b' to move backward by words."),
                    String::from_str("Press 'b' twice: fox→brown→quick"),
                    String::from_str("Answer: bb"),
                ],
            ),
        ];

        Lesson::new(2, String::from_str("Word Movement (wbe)"), explanation, commands, tasks)
    }

    /// Lesson 3: jumps to a line's start and end.
    fn lesson_3_line_extremes() -> (r: Lesson)
        ensures
            r.id == 3,
            r.tasks@.len() == 3,
    {
        let explanation = vec![
            String::from_str("Jumping to the beginning or end of a line is a common operation."),
            String::from_str(""),
            String::from_str("Line movement commands:"),
            String::from_str("  0 - jump to the start of the line (column 0)"),
            String::from_str("  $ - jump to the end of the line"),
            String::from_str(""),
            String::from_str("These are much faster than holding 'h' or 'l'!"),
        ];

        let commands = vec![
            Command::Motion(Motion::LineStart),
            Command::Motion(Motion::LineEnd),
        ];

        let buffer_text = "The quick brown fox jumps over the lazy dog";

        let tasks = vec![
            Task::new(
                String::from_str("Jump to the beginning of the line"),
                Self::buffer_at(buffer_text, 0, 20),
                CursorPosition::new(0, 0),
                vec![Command::Motion(Motion::LineStart)],
                vec![
                    String::from_str("Use '0' to jump to the start of the line."),
                    String::from_str("Press '0' (zero) once."),
                    String::from_str("Answer: 0"),
                ],
            ),
            Task::new(
                String::from_str("Jump to the end of the line"),
                Buffer::new(buffer_text),
                CursorPosition::new(0, 42),
                vec![Command::Motion(Motion::LineEnd)],
                vec![
                    String::from_str("Use '$' to jump to the end of the line."),
                    String::from_str("Press '$' once."),
                    String::from_str("Answer: $"),
                ],
            ),
            Task::new(
                String::from_str("Go to the end, then back to the start"),
                Self::buffer_at(buffer_text, 0, 15),
                CursorPosition::new(0, 0),
                vec![
                    Command::Motion(Motion::LineEnd),
                    Command::Motion(Motion::LineStart),
                ],
                vec![
                    String::from_str("First jump to the end with '$', then to the start with '0'."),
                    String::from_str("Press '$' then '0'."),
                    String::from_str("Answer: $0"),
                ],
            ),
        ];

        Lesson::new(3, String::from_str("Line Extremes (0$)"), explanation, commands, tasks)
    }

    /// Lesson 4: chaining line and word motions.
    fn lesson_4_combining_movements() -> (r: Lesson)
        ensures
            r.id == 4,
            r.tasks@.len() == 3,
    {
        let explanation = vec![
            String::from_str("Now let's practice combining different movement commands."),
            String::from_str(""),
            String::from_str("You can chain movements to reach your target efficiently:"),
            String::from_str("  - Use line jumps (0, $) to get to line boundaries"),
            String::from_str("  - Use word jumps (w, b, e) to navigate between words"),
            String::from_str("  - Use character moves (h, j, k, l) for fine adjustments"),
            String::from_str(""),
            String::from_str("Think about the most efficient path to your destination!"),
        ];

        let commands = vec![
            Command::Motion(Motion::Left),
            Command::Motion(Motion::Right),
            Command::Motion(Motion::WordForward),
            Command::Motion(Motion::WordBackward),
            Command::Motion(Motion::WordEnd),
            Command::Motion(Motion::LineStart),
            Command::Motion(Motion::LineEnd),
        ];

        let buffer_text = "The quick brown fox jumps over the lazy dog";

        let tasks = vec![
            Task::new(
                String::from_str("Navigate from start to 'lazy' using word movement"),
                Buffer::new(buffer_text),
                CursorPosition::new(0, 35),
                vec![
                    Command::Motion(Motion::WordForward),
                    Command::Motion(Motion::WordForward),
                    Command::Motion(Motion::WordForward),
                    Command::Motion(Motion::WordForward),
                    Command::Motion(Motion::WordForward),
                    Command::Motion(Motion::WordForward),
                    Command::Motion(Motion::WordForward),
                ],
                vec![
                    String::from_str("Count the words: The quick brown fox jumps over the lazy"),
                    String::from_str("That's 7 words forward. Use 'w' seven times."),
                    String::from_str("Answer: wwwwwww"),
                ],
            ),
            Task::new(
                String::from_str("Jump to end, then back 3 words"),
                Buffer::new(buffer_text),
                CursorPosition::new(0, 31),
                vec![
                    Command::Motion(Motion::LineEnd),
                    Command::Motion(Motion::WordBackward),
                    Command::Motion(Motion::WordBackward),
                    Command::Motion(Motion::WordBackward),
                ],
                vec![
                    String::from_str("First use '$' to reach the end."),
                    String::from_str("Then use 'b' three times to go back."),
                    String::from_str("Answer: $bbb"),
                ],
            ),
            Task::new(
                String::from_str("From 'jumps' to 'brown' using line and word movement"),
                Self::buffer_at(buffer_text, 0, 20),
                CursorPosition::new(0, 10),
                vec![
                    Command::Motion(Motion::LineStart),
                    Command::Motion(Motion::WordForward),
                    Command::Motion(Motion::WordForward),
                ],
                vec![
                    String::from_str("Jump to start with '0', then forward to 'brown'."),
                    String::from_str("Use '0' then 'w' twice."),
                    String::from_str("Answer: 0ww"),
                ],
            ),
        ];

        Lesson::new(4, String::from_str("Combining Movements"), explanation, commands, tasks)
    }

    /// Lesson 5: jumps to the file's first and last line.
    fn lesson_5_vertical_movement() -> (r: Lesson)
        ensures
            r.id == 5,
            r.tasks@.len() == 3,
    {
        let explanation = vec![
            String::from_str("For navigating files, you need vertical movement commands."),
            String::from_str(""),
            String::from_str("File movement commands:"),
            String::from_str("  gg - jump to the first line of the file"),
            String::from_str("  G  - jump to the last line of the file"),
            String::from_str(""),
            String::from_str("These are essential for quickly moving through large files."),
        ];

        let commands = vec![
            Command::Motion(Motion::FileStart),
            Command::Motion(Motion::FileEnd),
        ];

        let buffer_text =
            "First line of text\nSecond line here\nThird line content\nFourth line follows\nFifth line present\nSixth line exists\nSeventh and final line";

        let tasks = vec![
            Task::new(
                String::from_str("Jump to the last line of the file"),
                Buffer::new(buffer_text),
                CursorPosition::new(6, 0),
                vec![Command::Motion(Motion::FileEnd)],
                vec![
                    String::from_str("Use 'G' (capital G) to jump to the last line."),
                    String::from_str("Press 'G' once."),
                    String::from_str("Answer: G"),
                ],
            ),
            Task::new(
                String::from_str("Jump to the first line of the file"),
                Self::buffer_at(buffer_text, 4, 0),
                CursorPosition::new(0, 0),
                vec![Command::Motion(Motion::FileStart)],
                vec![
                    String::from_str("Use 'gg' to jump to the first line."),
                    String::from_str("Press 'g' twice quickly."),
                    String::from_str("Answer: gg"),
                ],
            ),
            Task::new(
                String::from_str("Jump to the end and back to the start"),
                Self::buffer_at(buffer_text, 3, 0),
                CursorPosition::new(0, 0),
                vec![
                    Command::Motion(Motion::FileEnd),
                    Command::Motion(Motion::FileStart),
                ],
                vec![
                    String::from_str("First jump to the end with 'G', then back to start with 'gg'."),
                    String::from_str("Press 'G' then 'gg'."),
                    String::from_str("Answer: Ggg"),
                ],
            ),
        ];

        Lesson::new(5, String::from_str("Vertical Movement (gg, G)"), explanation, commands, tasks)
    }

    /// Lesson 6: everything together.
    fn lesson_6_complete_practice() -> (r: Lesson)
        ensures
            r.id == 6,
            r.tasks@.len() == 4,
    {
        let explanation = vec![
            String::from_str("Time to practice everything you've learned!"),
            String::from_str(""),
            String::from_str("This lesson combines all movement commands:"),
            String::from_str("  - Basic movement: h, j, k, l"),
            String::from_str("  - Word movement: w, b, e"),
            String::from_str("  - Line movement: 0, $"),
            String::from_str("  - File movement: gg, G"),
            String::from_str(""),
            String::from_str("Think about the most efficient way to reach each target!"),
        ];

        let commands = vec![
            Command::Motion(Motion::Left),
            Command::Motion(Motion::Down),
            Command::Motion(Motion::Up),
            Command::Motion(Motion::Right),
            Command::Motion(Motion::WordForward),
            Command::Motion(Motion::WordBackward),
            Command::Motion(Motion::WordEnd),
            Command::Motion(Motion::LineStart),
            Command::Motion(Motion::LineEnd),
            Command::Motion(Motion::FileStart),
            Command::Motion(Motion::FileEnd),
        ];

        let buffer_text =
            "function calculate(x, y) {\nlet result = x + y;\nreturn result;\n}\n\nfunction main() {\nlet value = calculate(10, 20);\nconsole.log(value);\n}";

        let tasks = vec![
            Task::new(
                String::from_str("Navigate to 'calculate' on the first line"),
                Buffer::new(buffer_text),
                CursorPosition::new(0, 9),
                vec![Command::Motion(Motion::WordForward)],
                vec![
                    String::from_str("From the start, move forward one word."),
                    String::from_str("Use 'w' once."),
                    String::from_str("Answer: w"),
                ],
            ),
            Task::new(
                String::from_str("Jump to the last line, then to 'log'"),
                Buffer::new(buffer_text),
                CursorPosition::new(7, 8),
                vec![
                    Command::Motion(Motion::FileEnd),
                    Command::Motion(Motion::Up),
                    Command::Motion(Motion::WordForward),
                    Command::Motion(Motion::WordForward),
                ],
                vec![
                    String::from_str("First jump to the last line with 'G'."),
                    String::from_str("Then move up with 'k' and forward two words with 'w'."),
                    String::from_str("Answer: Gkww"),
                ],
            ),
            Task::new(
                String::from_str("From line 3, go to end of 'result' on line 2"),
                Self::buffer_at(buffer_text, 2, 7),
                CursorPosition::new(1, 9),
                vec![
                    Command::Motion(Motion::Up),
                    Command::Motion(Motion::WordEnd),
                ],
                vec![
                    String::from_str("Move up one line, then to the end of the word."),
                    String::from_str("Use 'k' to move up, then 'e' to jump to word end."),
                    String::from_str("Answer: ke"),
                ],
            ),
            Task::new(
                String::from_str("Navigate from 'function main()' to the opening brace of calculate"),
                Self::buffer_at(buffer_text, 5, 0),
                CursorPosition::new(0, 25),
                vec![
                    Command::Motion(Motion::FileStart),
                    Command::Motion(Motion::LineEnd),
                ],
                vec![
                    String::from_str("Jump to the first line, then to the end of that line."),
                    String::from_str("Use 'gg' then '$'."),
                    String::from_str("Answer: gg$"),
                ],
            ),
        ];

        Lesson::new(6, String::from_str("Complete Movement Practice"), explanation, commands, tasks)
    }
}

impl Default for Curriculum {
    /// The same as `Curriculum::new`.
    fn default() -> (r: Self)
        ensures
            r.spec_lessons().len() == 6,
            forall|i: int| 0 <= i < 6 ==> #[trigger] r.spec_lessons()[i].id == i + 1,
    {
        Self::new()
    }
}

} // verus!
