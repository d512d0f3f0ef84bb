use vstd::prelude::*;

use crate::buffer::{Buffer, CursorPosition};
use crate::command::Command;

verus! {

/// One lesson: an id, a title, explanation lines, the commands it
/// teaches, and its tasks.
#[derive(Clone)]
pub struct Lesson {
    pub id: usize,
    pub title: String,
    pub explanation: Vec<String>,
    pub commands: Vec<Command>,
    pub tasks: Vec<Task>,
}

/// One task: a description, the buffer the learner starts from, the
/// position to reach, the expected command sequence, and hints.
#[derive(Clone)]
pub struct Task {
    pub description: String,
    pub initial_buffer: Buffer,
    pub target_position: CursorPosition,
    pub expected_commands: Vec<Command>,
    pub hints: Vec<String>,
}

impl Lesson {
    /// Packs a lesson's parts together.
    pub fn new(
        id: usize,
        title: String,
        explanation: Vec<String>,
        commands: Vec<Command>,
        tasks: Vec<Task>,
    ) -> (r: Self)
        ensures
            r.id == id,
            r.title == title,
            r.explanation == explanation,
            r.commands == commands,
            r.tasks == tasks,
    {
        Self { id, title, explanation, commands, tasks }
    }
}

impl Task {
    /// Packs a task's parts together.
    pub fn new(
        description: String,
        initial_buffer: Buffer,
        target_position: CursorPosition,
        expected_commands: Vec<Command>,
        hints: Vec<String>,
    ) -> (r: Self)
        ensures
            r.description == description,
            r.initial_buffer == initial_buffer,
            r.target_position == target_position,
            r.expected_commands == expected_commands,
            r.hints == hints,
    {
        Self { description, initial_buffer, target_position, expected_commands, hints }
    }
}

} // verus!
