//! A task record and its text block.

use vstd::prelude::*;
use vstd::string::*;

use crate::priority::Priority;
use crate::stamp::Timestamp;
use crate::text::{debug_quoted, quote};

verus! {

/// A named unit of work. Nothing is required of the name or the description:
/// both may be empty, and two tasks may share a name.
#[derive(Clone, Debug, PartialEq, Eq)]
pub struct Task {
    /// The name, by which the task is looked up.
    pub name: String,
    /// Free text.
    pub description: String,
    /// How urgent the task is.
    pub priority: Priority,
    /// When the task was created. Editing a task keeps it.
    pub add_time: Timestamp,
}

/// A task as a mathematical value.
pub struct TaskView {
    /// The characters of the name.
    pub name: Seq<char>,
    /// The characters of the description.
    pub description: Seq<char>,
    /// How urgent the task is.
    pub priority: Priority,
    /// When the task was created.
    pub add_time: Timestamp,
}

impl View for Task {
    type V = TaskView;

    open spec fn view(&self) -> TaskView {
        TaskView {
            name: self.name@,
            description: self.description@,
            priority: self.priority,
            add_time: self.add_time,
        }
    }
}

/// The priority that a typed answer gives: the one it names, else `Low`.
pub open spec fn chosen(answer: Seq<char>) -> Priority {
    match Priority::of_answer(answer) {
        Some(p) => p,
        None => Priority::Low,
    }
}

/// What is said about a typed answer that names no priority; nothing about
/// one that does.
pub open spec fn warning(answer: Seq<char>) -> Seq<char> {
    if Priority::of_answer(answer) is None {
        "i don't understand but priority set low \n"@
    } else {
        Seq::empty()
    }
}

/// The line of asterisks that opens and closes a block.
pub open spec fn rule() -> Seq<char> {
    "\n****************************\n"@
}

impl TaskView {
    /// The text block of a task around `stamp`, the creation time as it is to
    /// appear: a rule, then name, priority label and `stamp` separated by
    /// bars, then the description between quotes, then a rule and an empty
    /// line.
    pub open spec fn frame(self, stamp: Seq<char>) -> Seq<char> {
        rule() + self.name + " | "@ + self.priority.label() + " | "@ + stamp + "\n\""@
            + self.description + "\""@ + rule() + "\n"@
    }

    /// The text block of a task: the frame around the creation time, shown
    /// as day, month, year and time of day and put between quotes.
    pub open spec fn block(self) -> Seq<char> {
        self.frame(debug_quoted(self.add_time.text()))
    }

    /// The task with name, description and priority taken from `other`, and
    /// its own creation time.
    pub open spec fn revised(self, other: TaskView) -> TaskView {
        TaskView {
            name: other.name,
            description: other.description,
            priority: other.priority,
            add_time: self.add_time,
        }
    }
}

impl Task {
    /// A task created now: `add_time` is the current instant in the local
    /// time zone.
    pub fn new(name: String, description: String, priority: Priority) -> (t: Task)
        ensures
            t.name == name,
            t.description == description,
            t.priority == priority,
            t.add_time.wf(),
    {
        Task::with_time(name, description, priority, Timestamp::now())
    }

    /// A task created now from what was typed at the console: the name, the
    /// description and the answer to the question for the priority. An answer
    /// that names no priority gives `Low`. With the task comes what is to be
    /// printed about the answer.
    pub fn new_from_console(name: String, description: String, answer: &str) -> (r: (Task, String))
        ensures
            r.0.name == name,
            r.0.description == description,
            r.0.priority == chosen(answer@),
            r.0.add_time.wf(),
            r.1@ == warning(answer@),
    {
        match Priority::from_answer(answer) {
            Some(priority) => (Task::new(name, description, priority), String::new()),
            None => (
                Task::new(name, description, Priority::Low),
                "i don't understand but priority set low \n".to_owned(),
            ),
        }
    }

    /// A task with a given creation time.
    pub fn with_time(name: String, description: String, priority: Priority, add_time: Timestamp) -> (t:
        Task)
        ensures
            t == (Task { name, description, priority, add_time }),
    {
        Task { name, description, priority, add_time }
    }

    /// The text block of the task.
    pub fn render(&self) -> (out: String)
        ensures
            out@ == self@.block(),
    {
        let shown = self.add_time.display();
        let stamp = quote(shown.as_str());
        self.frame(stamp.as_str())
    }

    /// The text block of the task around `stamp`, the creation time as it is
    /// to appear.
    pub fn frame(&self, stamp: &str) -> (out: String)
        ensures
            out@ == self@.frame(stamp@),
    {
        let label = self.priority.to_string();
        let mut out = "\n****************************\n".to_owned();
        out.append(self.name.as_str());
        out.append(" | ");
        out.append(label.as_str());
        out.append(" | ");
        out.append(stamp);
        out.append("\n\"");
        out.append(self.description.as_str());
        out.append("\"");
        out.append("\n****************************\n");
        out.append("\n");
        out
    }
}

} // verus!
