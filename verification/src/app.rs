use vstd::prelude::*;

use vstd::string::StringExecFns;

use crate::buffer::{Buffer, CursorPosition};
use crate::command::{Command, Motion};
use crate::curriculum::{first_lesson_with, Curriculum};
use crate::event::{Event, SpecialKey};
use crate::executor::{invalid_buffer_msg, Executor, VimError};
use crate::lesson::{Lesson, Task};
use crate::motion::motion_target;
use crate::parser::{after_g_msg, key_motion, unknown_key_msg, CommandParser, ParseResult};
use crate::validator::{
    count_msg, first_diff, wrong_command_msg, wrong_position_msg, ValidationResult, Validator,
};

verus! {

/// Whether the application shows the lesson menu or runs a lesson.
#[derive(Clone, Copy, Debug, PartialEq, Eq, Structural)]
pub enum AppMode {
    Menu,
    Lesson,
}

/// The application state around one exercise session: the catalogue, the
/// selected lesson and task, the working buffer, the keystroke parser,
/// the commands executed so far, and the interface flags.
pub struct App {
    pub mode: AppMode,
    pub curriculum: Curriculum,
    pub current_lesson_id: Option<usize>,
    pub current_task_index: usize,
    pub task_buffer: Buffer,
    pub command_parser: CommandParser,
    pub validator: Validator,
    pub executed_commands: Vec<Command>,
    pub input_buffer: String,
    pub feedback_message: String,
    pub show_hint: bool,
    pub hint_index: usize,
    pub running: bool,
    pub waiting_for_next_task: bool,
}

impl App {
    /// The lesson selected now, as the catalogue resolves its id.
    pub open spec fn spec_current_lesson(&self) -> Option<Lesson> {
        match self.current_lesson_id {
            None => None,
            Some(id) => {
                let s = self.curriculum.spec_lessons();
                let k = first_lesson_with(s, id as int, 0);
                if k < s.len() {
                    Some(s[k])
                } else {
                    None
                }
            },
        }
    }

    /// The task under work, when a lesson is selected and its index is in
    /// range.
    pub open spec fn spec_current_task(&self) -> Option<Task> {
        match self.spec_current_lesson() {
            None => None,
            Some(l) => if self.current_task_index < l.tasks@.len() {
                Some(l.tasks@[self.current_task_index as int])
            } else {
                None
            },
        }
    }

    /// The application invariant: while the app waits for the space bar
    /// before the next task, a current task exists, so the task index may
    /// still grow.
    pub open spec fn inv(&self) -> bool {
        self.waiting_for_next_task ==> self.spec_current_task() is Some
    }
}

/// The fields a task reset leaves untouched, and what it does to the
/// rest: the selected task's fresh buffer (or the single empty line when
/// none is selected), no executed commands, no typed input, no pending
/// keystroke, no hint, and no waiting.
pub open spec fn reset_done(pre: App, post: App) -> bool {
    &&& match pre.spec_current_task() {
        Some(t) => post.task_buffer.text() == t.initial_buffer.text()
            && post.task_buffer.spec_cursor() == t.initial_buffer.spec_cursor(),
        None => post.task_buffer.text() == seq![Seq::<char>::empty()]
            && post.task_buffer.spec_cursor() == (CursorPosition { line: 0, column: 0 }),
    }
    &&& post.executed_commands@ == Seq::<Command>::empty()
    &&& post.input_buffer@ == Seq::<char>::empty()
    &&& !post.command_parser.pending()
    &&& !post.show_hint
    &&& post.hint_index == 0
    &&& !post.waiting_for_next_task
    &&& post.mode == pre.mode
    &&& post.curriculum == pre.curriculum
    &&& post.current_lesson_id == pre.current_lesson_id
    &&& post.current_task_index == pre.current_task_index
    &&& post.running == pre.running
    &&& post.validator == pre.validator
}

/// What leaving a lesson for the menu does: clears the selection, resets
/// the task state against the empty selection, and clears the feedback.
pub open spec fn menu_return_done(pre: App, post: App) -> bool {
    &&& reset_done(
        (App {
            mode: AppMode::Menu,
            current_lesson_id: None,
            current_task_index: 0,
            ..pre
        }),
        post,
    )
    &&& post.feedback_message@ == Seq::<char>::empty()
}

/// What starting lesson `id` does when the catalogue has it: selects it
/// at its first task, enters lesson mode, resets the task state, and
/// greets; when the catalogue lacks the id, nothing happens.
pub open spec fn lesson_started(pre: App, post: App, id: int) -> bool {
    if first_lesson_with(pre.curriculum.spec_lessons(), id, 0) < pre.curriculum.spec_lessons().len() {
        &&& reset_done(
            (App {
                mode: AppMode::Lesson,
                current_lesson_id: Some(id as usize),
                current_task_index: 0,
                ..pre
            }),
            post,
        )
        &&& post.feedback_message@ == "Lesson started! Complete each task to progress."@
    } else {
        post == pre
    }
}

/// What one keystroke does at the menu: a digit starts that lesson, `q`
/// quits, anything else does nothing.
pub open spec fn menu_key_done(pre: App, post: App, c: char) -> bool {
    if c == '1' {
        lesson_started(pre, post, 1)
    } else if c == '2' {
        lesson_started(pre, post, 2)
    } else if c == '3' {
        lesson_started(pre, post, 3)
    } else if c == '4' {
        lesson_started(pre, post, 4)
    } else if c == '5' {
        lesson_started(pre, post, 5)
    } else if c == '6' {
        lesson_started(pre, post, 6)
    } else if c == 'q' {
        post == (App { running: false, ..pre })
    } else {
        post == pre
    }
}

/// What asking for a hint does: with no hints on the task it only says
/// so; otherwise it opens the first hint, or moves to the next while one
/// is left, and keeps the last one open.
pub open spec fn hint_shown(pre: App, post: App) -> bool {
    let hn: nat = match pre.spec_current_task() {
        Some(t) => t.hints@.len(),
        None => 0,
    };
    &&& post == (App {
        feedback_message: post.feedback_message,
        show_hint: post.show_hint,
        hint_index: post.hint_index,
        ..pre
    })
    &&& if hn == 0 {
        &&& post.feedback_message@ == "No hints to show for the current exercise."@
        &&& post.show_hint == pre.show_hint
        &&& post.hint_index == pre.hint_index
    } else {
        &&& post.feedback_message == pre.feedback_message
        &&& if !pre.show_hint {
            post.show_hint && post.hint_index == 0
        } else if pre.hint_index < hn - 1 {
            post.show_hint && post.hint_index == pre.hint_index + 1
        } else {
            post.show_hint == pre.show_hint && post.hint_index == pre.hint_index
        }
    }
}

/// What the completion check records once a command has gone through:
/// the validator's verdict on the task, the commands executed so far and
/// the cursor reached, written into the feedback; on a correct solution
/// the hint state clears and either the app waits for the next task or
/// announces the lesson's end.
pub open spec fn verdict_recorded(pre: App, post: App, task: Task) -> bool {
    let e = task.expected_commands@;
    let a = pre.executed_commands@;
    let fp = pre.task_buffer.spec_cursor();
    let tp = task.target_position;
    &&& e.len() != a.len() ==> {
        &&& post.feedback_message@ == count_msg(e.len(), a.len())
        &&& post.show_hint == pre.show_hint
        &&& post.hint_index == pre.hint_index
        &&& post.waiting_for_next_task == pre.waiting_for_next_task
    }
    &&& e.len() == a.len() && first_diff(e, a, 0) < e.len() ==> {
        &&& post.feedback_message@ == wrong_command_msg(
            (first_diff(e, a, 0) + 1) as nat,
            e[first_diff(e, a, 0)],
            a[first_diff(e, a, 0)],
        )
        &&& post.show_hint == pre.show_hint
        &&& post.hint_index == pre.hint_index
        &&& post.waiting_for_next_task == pre.waiting_for_next_task
    }
    &&& e == a && fp != tp ==> {
        &&& post.feedback_message@ == wrong_position_msg(fp, tp)
        &&& post.show_hint == pre.show_hint
        &&& post.hint_index == pre.hint_index
        &&& post.waiting_for_next_task == pre.waiting_for_next_task
    }
    &&& e == a && fp == tp ==> {
        &&& !post.show_hint
        &&& post.hint_index == 0
        &&& (pre.spec_current_lesson() matches Some(l) ==> if pre.current_task_index + 1
            < l.tasks@.len() {
            &&& post.feedback_message@ == "Correct! Press Space to continue."@
            &&& post.waiting_for_next_task
        } else {
            &&& post.feedback_message@ == "Lesson completed! Press ESC to return to menu."@
            &&& post.waiting_for_next_task == pre.waiting_for_next_task
        })
    }
}

/// What the completion check does: everything but the feedback, the hint
/// state and the waiting flag stays, and those three record the verdict;
/// with no task selected nothing happens at all.
pub open spec fn completion_checked(pre: App, post: App) -> bool {
    &&& post == (App {
        feedback_message: post.feedback_message,
        show_hint: post.show_hint,
        hint_index: post.hint_index,
        waiting_for_next_task: post.waiting_for_next_task,
        ..pre
    })
    &&& match pre.spec_current_task() {
        Some(task) => verdict_recorded(pre, post, task),
        None => post == pre,
    }
}

/// What one completed motion command does: the parser is back at rest;
/// on a well-formed buffer the cursor moves to the motion's target, the
/// command is recorded, and the completion check runs on the new state;
/// a malformed buffer is left alone and the error is reported instead.
pub open spec fn command_applied(pre: App, post: App, m: Motion) -> bool {
    &&& !post.command_parser.pending()
    &&& if pre.task_buffer.wf() {
        let tgt = motion_target(
            pre.task_buffer.text(),
            pre.task_buffer.spec_cursor().line as int,
            pre.task_buffer.spec_cursor().column as int,
            m,
        );
        &&& post.task_buffer.text() == pre.task_buffer.text()
        &&& (post.task_buffer.spec_cursor().line as int, post.task_buffer.spec_cursor().column as int)
            == tgt
        &&& post.executed_commands@ == pre.executed_commands@.push(Command::Motion(m))
        &&& match pre.spec_current_task() {
            Some(task) => verdict_recorded(
                (App {
                    task_buffer: post.task_buffer,
                    executed_commands: post.executed_commands,
                    input_buffer: post.input_buffer,
                    command_parser: post.command_parser,
                    ..pre
                }),
                post,
                task,
            ),
            None => {
                &&& post.feedback_message == pre.feedback_message
                &&& post.show_hint == pre.show_hint
                &&& post.hint_index == pre.hint_index
                &&& post.waiting_for_next_task == pre.waiting_for_next_task
            },
        }
    } else {
        &&& post.task_buffer == pre.task_buffer
        &&& post.executed_commands == pre.executed_commands
        &&& post.feedback_message@ == "Error: "@ + invalid_buffer_msg()
        &&& post.show_hint == pre.show_hint
        &&& post.hint_index == pre.hint_index
        &&& post.waiting_for_next_task == pre.waiting_for_next_task
    }
}

/// What feeding one keystroke to the session does: the key is recorded,
/// the parser judges it, and a completed command runs through the
/// engine; an incomplete sequence only reports itself, and a rejected
/// key resets the parser and the typed input.
pub open spec fn vim_key_done(pre: App, post: App, c: char) -> bool {
    &&& post.mode == pre.mode
    &&& post.curriculum == pre.curriculum
    &&& post.current_lesson_id == pre.current_lesson_id
    &&& post.current_task_index == pre.current_task_index
    &&& post.running == pre.running
    &&& post.validator == pre.validator
    &&& !pre.command_parser.pending() ==> {
        &&& (key_motion(c) matches Some(m) ==> command_applied(pre, post, m)
            && post.input_buffer@ == pre.input_buffer@.push(c))
        &&& c == 'g' ==> {
            &&& post == (App {
                command_parser: post.command_parser,
                input_buffer: post.input_buffer,
                feedback_message: post.feedback_message,
                ..pre
            })
            &&& post.command_parser.pending()
            &&& post.input_buffer@ == pre.input_buffer@.push(c)
            &&& post.feedback_message@ == "Command incomplete..."@
        }
        &&& key_motion(c) is None && c != 'g' ==> {
            &&& post == (App {
                command_parser: post.command_parser,
                input_buffer: post.input_buffer,
                feedback_message: post.feedback_message,
                ..pre
            })
            &&& !post.command_parser.pending()
            &&& post.input_buffer@ == Seq::<char>::empty()
            &&& post.feedback_message@ == "Invalid command: "@ + unknown_key_msg(c)
        }
    }
    &&& pre.command_parser.pending() ==> {
        &&& c == 'g' ==> command_applied(pre, post, Motion::FileStart) && post.input_buffer@
            == pre.input_buffer@.push(c)
        &&& c != 'g' ==> {
            &&& post == (App {
                command_parser: post.command_parser,
                input_buffer: post.input_buffer,
                feedback_message: post.feedback_message,
                ..pre
            })
            &&& !post.command_parser.pending()
            &&& post.input_buffer@ == Seq::<char>::empty()
            &&& post.feedback_message@ == "Invalid command: "@ + after_g_msg(c)
        }
    }
}

/// What one keystroke does during a lesson: space advances past a solved
/// task, `?` asks for a hint and `r` restarts the task (both only while
/// no keystroke is pending), and anything else goes to the session.
pub open spec fn lesson_key_done(pre: App, post: App, c: char) -> bool {
    if c == ' ' && pre.waiting_for_next_task {
        &&& reset_done(
            (App {
                current_task_index: (pre.current_task_index + 1) as usize,
                waiting_for_next_task: false,
                ..pre
            }),
            post,
        )
        &&& post.feedback_message@ == "Starting next task..."@
    } else if c == '?' && !pre.command_parser.pending() {
        hint_shown(pre, post)
    } else if c == 'r' && !pre.command_parser.pending() {
        reset_done(pre, post) && post.feedback_message@ == "Task reset. Try again!"@
    } else {
        vim_key_done(pre, post, c)
    }
}

/// What one printable key does, by mode.
pub open spec fn key_done(pre: App, post: App, c: char) -> bool {
    match pre.mode {
        AppMode::Menu => menu_key_done(pre, post, c),
        AppMode::Lesson => lesson_key_done(pre, post, c),
    }
}

/// What a special key does: escape leaves a lesson for the menu, enter
/// does nothing, and backspace cancels a pending keystroke.
pub open spec fn special_key_done(pre: App, post: App, k: SpecialKey) -> bool {
    match k {
        SpecialKey::Escape => if pre.mode == AppMode::Lesson {
            menu_return_done(pre, post)
        } else {
            post == pre
        },
        SpecialKey::Enter => post == pre,
        SpecialKey::Backspace => if pre.mode == AppMode::Lesson && pre.command_parser.pending() {
            &&& post == (App {
                command_parser: post.command_parser,
                input_buffer: post.input_buffer,
                feedback_message: post.feedback_message,
                ..pre
            })
            &&& !post.command_parser.pending()
            &&& post.input_buffer@ == Seq::<char>::empty()
            &&& post.feedback_message@ == "Command cancelled."@
        } else {
            post == pre
        },
    }
}

/// What one event does to the whole application.
pub open spec fn event_done(pre: App, post: App, event: Event) -> bool {
    match event {
        Event::Quit => post == (App { running: false, ..pre }),
        Event::Key(c) => key_done(pre, post, c),
        Event::SpecialKey(k) => special_key_done(pre, post, k),
        Event::Resize => post == pre,
    }
}

impl App {
    /// A fresh application: at the menu, with the full catalogue, no
    /// selection, an empty buffer, a parser at rest, and running.
    pub fn new() -> (r: Self)
        ensures
            r.mode == AppMode::Menu,
            r.curriculum.spec_lessons().len() == 6,
            forall|i: int| 0 <= i < 6 ==> #[trigger] r.curriculum.spec_lessons()[i].id == i + 1,
            r.current_lesson_id is None,
            r.current_task_index == 0,
            r.task_buffer.text() == seq![Seq::<char>::empty()],
            r.task_buffer.spec_cursor() == (CursorPosition { line: 0, column: 0 }),
            !r.command_parser.pending(),
            r.executed_commands@ == Seq::<Command>::empty(),
            r.input_buffer@ == Seq::<char>::empty(),
            r.feedback_message@ == Seq::<char>::empty(),
            !r.show_hint,
            r.hint_index == 0,
            r.running,
            !r.waiting_for_next_task,
            r.inv(),
    {
        let buffer = Buffer::new("");
        proof {
            reveal_strlit("");
            assert(crate::scan::lines_of(""@) =~= seq![Seq::<char>::empty()]);
        }
        Self {
            mode: AppMode::Menu,
            curriculum: Curriculum::new(),
            current_lesson_id: None,
            current_task_index: 0,
            task_buffer: buffer,
            command_parser: CommandParser::new(),
            validator: Validator::new(),
            executed_commands: Vec::new(),
            input_buffer: String::new(),
            feedback_message: String::new(),
            show_hint: false,
            hint_index: 0,
            running: true,
            waiting_for_next_task: false,
        }
    }

    /// The lesson selected now.
    pub fn current_lesson(&self) -> (r: Option<&Lesson>)
        ensures
            match r {
                Some(l) => self.spec_current_lesson() == Some(*l),
                None => self.spec_current_lesson() is None,
            },
    {
        match self.current_lesson_id {
            Some(id) => self.curriculum.get_lesson(id),
            None => None,
        }
    }

    /// The task under work.
    pub fn current_task(&self) -> (r: Option<&Task>)
        ensures
            match r {
                Some(t) => self.spec_current_task() == Some(*t),
                None => self.spec_current_task() is None,
            },
    {
        match self.current_lesson() {
            Some(lesson) => if self.current_task_index < lesson.tasks.len() {
                Some(&lesson.tasks[self.current_task_index])
            } else {
                None
            },
            None => None,
        }
    }

    /// Feeds one event through the application.
    pub fn handle_event(&mut self, event: Event)
        requires
            old(self).inv(),
        ensures
            final(self).inv(),
            event_done(*old(self), *final(self), event),
    {
        match event {
            Event::Quit => {
                self.running = false;
            },
            Event::Key(c) => {
                self.handle_key(c);
            },
            Event::SpecialKey(key) => {
                self.handle_special_key(key);
            },
            Event::Resize => {},
        }
    }

    /// One printable key, dispatched by mode.
    fn handle_key(&mut self, c: char)
        requires
            old(self).inv(),
        ensures
            final(self).inv(),
            key_done(*old(self), *final(self), c),
    {
        match self.mode {
            AppMode::Menu => self.handle_menu_key(c),
            AppMode::Lesson => self.handle_lesson_key(c),
        }
    }

    /// One special key.
    fn handle_special_key(&mut self, key: SpecialKey)
        requires
            old(self).inv(),
        ensures
            final(self).inv(),
            special_key_done(*old(self), *final(self), key),
    {
        match key {
            SpecialKey::Escape => {
                if self.mode == AppMode::Lesson {
                    self.return_to_menu();
                }
            },
            SpecialKey::Enter => {},
            SpecialKey::Backspace => {
                if self.mode == AppMode::Lesson && self.command_parser.is_incomplete() {
                    self.command_parser.reset();
                    self.input_buffer = String::new();
                    self.feedback_message = String::from_str("Command cancelled.");
                }
            },
        }
    }

    /// One key at the menu.
    fn handle_menu_key(&mut self, c: char)
        requires
            old(self).inv(),
        ensures
            final(self).inv(),
            menu_key_done(*old(self), *final(self), c),
    {
        match c {
            '1' => self.start_lesson(1),
            '2' => self.start_lesson(2),
            '3' => self.start_lesson(3),
            '4' => self.start_lesson(4),
            '5' => self.start_lesson(5),
            '6' => self.start_lesson(6),
            'q' => {
                self.running = false;
            },
            _ => {},
        }
    }

    /// One key during a lesson.
    fn handle_lesson_key(&mut self, c: char)
        requires
            old(self).inv(),
        ensures
            final(self).inv(),
            lesson_key_done(*old(self), *final(self), c),
    {
        if c == ' ' && self.waiting_for_next_task {
            self.waiting_for_next_task = false;
            self.advance_to_next_task();
        } else if c == '?' && !self.command_parser.is_incomplete() {
            self.show_next_hint();
        } else if c == 'r' && !self.command_parser.is_incomplete() {
            self.reset_current_task();
        } else {
            self.process_vim_command(c);
        }
    }

    /// Puts the selected task back at its start.
    fn reset_current_task(&mut self)
        ensures
            final(self).inv(),
            reset_done(*old(self), *final(self)),
            final(self).feedback_message@ == "Task reset. Try again!"@,
    {
        self.reset_task_state();
        self.feedback_message = String::from_str("Task reset. Try again!");
    }

    /// One keystroke of the exercise session itself.
    fn process_vim_command(&mut self, c: char)
        requires
            old(self).inv(),
        ensures
            final(self).inv(),
            vim_key_done(*old(self), *final(self), c),
    {
        self.input_buffer.push(c);
        let parse_result = self.command_parser.parse_keystroke(c);
        match parse_result {
            ParseResult::Complete(command) => {
                match Executor::execute(&mut self.task_buffer, command) {
                    Err(e) => {
                        let mut msg = String::from_str("Error: ");
                        match &e {
                            VimError::InvalidMotion(detail) => {
                                msg.append(detail.as_str());
                            },
                        }
                        self.feedback_message = msg;
                    },
                    Ok(()) => {
                        self.executed_commands.push(command);
                        self.check_task_completion();
                    },
                }
            },
            ParseResult::Incomplete => {
                self.feedback_message = String::from_str("Command incomplete...");
            },
            ParseResult::Invalid(msg) => {
                let mut feedback = String::from_str("Invalid command: ");
                feedback.append(msg.as_str());
                self.feedback_message = feedback;
                self.command_parser.reset();
                self.input_buffer = String::new();
            },
        }
    }

    /// Judges the commands executed so far against the selected task.
    fn check_task_completion(&mut self)
        requires
            old(self).inv(),
        ensures
            final(self).inv(),
            completion_checked(*old(self), *final(self)),
    {
        let task_opt = self.current_task();
        if let Some(task) = task_opt {
            let result = self.validator.validate(
                task.expected_commands.as_slice(),
                self.executed_commands.as_slice(),
                self.task_buffer.cursor(),
                task.target_position,
            );
            match result {
                ValidationResult::Correct => {
                    self.show_hint = false;
                    self.hint_index = 0;
                    let task_count = match self.current_lesson() {
                        Some(l) => l.tasks.len(),
                        None => 0,
                    };
                    if self.current_task_index + 1 < task_count {
                        self.feedback_message = String::from_str(
                            "Correct! Press Space to continue.",
                        );
                        self.waiting_for_next_task = true;
                    } else {
                        self.feedback_message = String::from_str(
                            "Lesson completed! Press ESC to return to menu.",
                        );
                    }
                },
                ValidationResult::Incorrect { feedback } => {
                    self.feedback_message = feedback;
                },
                ValidationResult::WrongPosition { feedback } => {
                    self.feedback_message = feedback;
                },
            }
        }
    }

    /// Moves to the selected lesson's next task.
    fn advance_to_next_task(&mut self)
        requires
            old(self).spec_current_task() is Some,
        ensures
            final(self).inv(),
            reset_done(
                (App {
                    current_task_index: (old(self).current_task_index + 1) as usize,
                    ..*old(self)
                }),
                *final(self),
            ),
            final(self).feedback_message@ == "Starting next task..."@,
    {
        let task_count = match self.current_lesson() {
            Some(l) => l.tasks.len(),
            None => 0,
        };
        assert(self.current_task_index < task_count);
        self.current_task_index = self.current_task_index + 1;
        self.reset_task_state();
        self.feedback_message = String::from_str("Starting next task...");
    }

    /// Opens the next hint of the selected task, when it has any.
    fn show_next_hint(&mut self)
        requires
            old(self).inv(),
        ensures
            final(self).inv(),
            hint_shown(*old(self), *final(self)),
    {
        let hints_len = match self.current_task() {
            Some(t) => t.hints.len(),
            None => 0,
        };
        if hints_len == 0 {
            self.feedback_message = String::from_str("No hints to show for the current exercise.");
            return;
        }
        if !self.show_hint {
            self.show_hint = true;
            self.hint_index = 0;
        } else if self.hint_index < hints_len - 1 {
            self.hint_index = self.hint_index + 1;
        }
    }

    /// Enters a lesson when the catalogue has it.
    fn start_lesson(&mut self, lesson_id: usize)
        requires
            old(self).inv(),
        ensures
            final(self).inv(),
            lesson_started(*old(self), *final(self), lesson_id as int),
    {
        if self.curriculum.get_lesson(lesson_id).is_some() {
            self.current_lesson_id = Some(lesson_id);
            self.current_task_index = 0;
            self.mode = AppMode::Lesson;
            self.reset_task_state();
            self.feedback_message = String::from_str(
                "Lesson started! Complete each task to progress.",
            );
        }
    }

    /// Leaves the lesson for the menu.
    fn return_to_menu(&mut self)
        ensures
            final(self).inv(),
            menu_return_done(*old(self), *final(self)),
    {
        self.mode = AppMode::Menu;
        self.current_lesson_id = None;
        self.current_task_index = 0;
        self.reset_task_state();
        self.feedback_message = String::new();
    }

    /// Puts the session back at the selected task's start: its fresh
    /// buffer, nothing executed, nothing typed, nothing pending.
    fn reset_task_state(&mut self)
        ensures
            final(self).inv(),
            reset_done(*old(self), *final(self)),
            final(self).feedback_message == old(self).feedback_message,
    {
        let fresh = match self.current_task() {
            Some(task) => task.initial_buffer.duplicate(),
            None => {
                let empty = Buffer::new("");
                proof {
                    reveal_strlit("");
                    assert(crate::scan::lines_of(""@) =~= seq![Seq::<char>::empty()]);
                }
                empty
            },
        };
        self.task_buffer = fresh;
        self.executed_commands.clear();
        self.input_buffer = String::new();
        self.command_parser.reset();
        self.show_hint = false;
        self.hint_index = 0;
        self.waiting_for_next_task = false;
    }

    /// Whether the application should keep running.
    pub fn is_running(&self) -> (r: bool)
        ensures
            r == self.running,
    {
        self.running
    }
}

impl Default for App {
    /// The same as `App::new`: at the menu and running.
    fn default() -> (r: Self)
        ensures
            r.mode == AppMode::Menu,
            r.running,
            !r.waiting_for_next_task,
            r.inv(),
    {
        Self::new()
    }
}

} // verus!
