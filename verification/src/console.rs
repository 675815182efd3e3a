//! The console session: a numbered menu, one line of input per prompt, and one
//! command per round.
//!
//! The session does no input or output itself. It is a state machine: the
//! caller hands it what happened (a line was read, a path was probed, a file
//! was written or read) and gets back the text to print and the next thing to
//! do. A failure of a command, a file failure included, is printed and the
//! session goes on with the next command.

use vstd::prelude::*;
use vstd::string::*;

use crate::snapshot::{snapshot_gives, snapshot_readable, snapshot_text};
use crate::store::{blocks, first_named, lemma_first_named, ReadReport, TasksManager, WriteReport};
use crate::task::{chosen, warning, Task, TaskView};
use crate::text::{
    debug_quoted, decimal, decimal_text, has_prefix, quote, same_text, trim, trimmed,
};

verus! {

/// What the session is waiting for.
#[derive(Clone, Copy, Debug, PartialEq, Eq, Structural)]
pub enum Stage {
    /// A command code.
    Command,
    /// The name of a task to add.
    AddName,
    /// The description of a task to add.
    AddDescription,
    /// The priority of a task to add.
    AddPriority,
    /// The name of a task to show.
    FindName,
    /// The name of a task to edit.
    EditTarget,
    /// The new name of the task that is edited.
    EditName,
    /// The new description of the task that is edited.
    EditDescription,
    /// The new priority of the task that is edited.
    EditPriority,
    /// The name of a task to remove.
    RemoveName,
    /// The path to save to.
    SaveFile,
    /// Whether the path to save to is taken.
    SaveProbe,
    /// What came of writing the snapshot.
    SaveWrite,
    /// The path to load from.
    LoadFile,
    /// Whether there is a file at the path to load from.
    LoadProbe,
    /// What came of reading the snapshot.
    LoadRead,
}

/// What the caller reports to the session.
#[derive(Clone, Debug, PartialEq, Eq)]
pub enum Event {
    /// A line was read; it comes as it was read, line end included.
    Line(String),
    /// Printing the prompt or reading the line failed; the reason as text.
    InputFailed(String),
    /// Whether a file exists at the path that was to be probed.
    Probed(bool),
    /// What came of creating and writing the file.
    Wrote(WriteReport),
    /// What came of opening and reading the file.
    Fetched(ReadReport),
}

/// What the caller is to do after printing the output.
#[derive(Clone, Debug, PartialEq, Eq)]
pub enum Request {
    /// Read one line and report it.
    Line,
    /// Report whether a file exists at the path.
    Probe(String),
    /// Create a file at the path, write the text to it, and report.
    Write(String, String),
    /// Open the file at the path, read all of it, and report.
    Fetch(String),
}

/// The answer of the session to an event.
#[derive(Clone, Debug, PartialEq, Eq)]
pub struct Reply {
    /// The text to print, exactly as it is.
    pub output: String,
    /// What to do next.
    pub request: Request,
}

/// The session as a mathematical value.
pub struct SessionView {
    /// The entries of the menu.
    pub menu: Seq<Seq<char>>,
    /// The tasks of the store.
    pub tasks: Seq<TaskView>,
    /// What the session is waiting for.
    pub stage: Stage,
    /// The name of the task that is edited.
    pub target: Seq<char>,
    /// The name that was answered.
    pub name: Seq<char>,
    /// The description that was answered.
    pub description: Seq<char>,
    /// The path that was answered.
    pub path: Seq<char>,
}

/// The seven entries of the menu, in the order of their command codes.
pub open spec fn menu_entries() -> Seq<Seq<char>> {
    seq![
        "Add Task"@,
        "Find task"@,
        "Edit task"@,
        "Remove task"@,
        "Print task"@,
        "Store task to file"@,
        "Read task from file"@,
    ]
}

/// The first `count` lines of a menu: each entry behind its number, counted
/// from one.
pub open spec fn menu_text(entries: Seq<Seq<char>>, count: nat) -> Seq<char>
    decreases count,
{
    if count == 0 {
        Seq::empty()
    } else {
        menu_text(entries, (count - 1) as nat) + decimal_text(count) + ": "@ + entries[count - 1]
            + "\n"@
    }
}

/// A prompt: the query between quotes, without a line end.
pub open spec fn ask(query: Seq<char>) -> Seq<char> {
    debug_quoted(query)
}

/// What ends every command: an empty line and the prompt for the next
/// command code.
pub open spec fn closing() -> Seq<char> {
    "\n"@ + ask("Enter command index"@)
}

/// A message on a line of its own, between quotes.
pub open spec fn quoted_line(message: Seq<char>) -> Seq<char> {
    debug_quoted(message) + "\n"@
}

/// The stage waits for a line of input.
pub open spec fn awaits_line(stage: Stage) -> bool {
    stage != Stage::SaveProbe && stage != Stage::SaveWrite && stage != Stage::LoadProbe && stage
        != Stage::LoadRead
}

/// The event answers what the session asked for last. A failure of input is
/// taken only while a command code is awaited.
pub open spec fn expects(stage: Stage, event: Event) -> bool {
    match event {
        Event::Line(_) => awaits_line(stage),
        Event::InputFailed(_) => stage == Stage::Command,
        Event::Probed(_) => stage == Stage::SaveProbe || stage == Stage::LoadProbe,
        Event::Wrote(_) => stage == Stage::SaveWrite,
        Event::Fetched(_) => stage == Stage::LoadRead,
    }
}

/// The session becomes `next`, prints the prompt `query` and waits for a line.
pub open spec fn asks(next: SessionView, post: SessionView, reply: Reply, query: Seq<char>) -> bool {
    &&& post == next
    &&& reply.output@ == ask(query)
    &&& reply.request is Line
}

/// The command is over: the store holds `tasks`, `body` is printed, then the
/// closing, and the session waits for the next command code.
pub open spec fn ends(
    pre: SessionView,
    tasks: Seq<TaskView>,
    post: SessionView,
    reply: Reply,
    body: Seq<char>,
) -> bool {
    &&& post == SessionView { stage: Stage::Command, tasks: tasks, ..pre }
    &&& reply.output@ == body + closing()
    &&& reply.request is Line
}

/// What a command code does.
pub open spec fn on_command(pre: SessionView, code: Seq<char>, post: SessionView, reply: Reply) -> bool {
    if code == "1"@ {
        asks(SessionView { stage: Stage::AddName, ..pre }, post, reply, "Enter your task name"@)
    } else if code == "2"@ {
        asks(SessionView { stage: Stage::FindName, ..pre }, post, reply, "enter task name to find"@)
    } else if code == "3"@ {
        asks(
            SessionView { stage: Stage::EditTarget, ..pre },
            post,
            reply,
            "enter task name to edit"@,
        )
    } else if code == "4"@ {
        asks(
            SessionView { stage: Stage::RemoveName, ..pre },
            post,
            reply,
            "enter task name to remove"@,
        )
    } else if code == "5"@ {
        ends(pre, pre.tasks, post, reply, blocks(pre.tasks))
    } else if code == "6"@ {
        asks(SessionView { stage: Stage::SaveFile, ..pre }, post, reply, "Enter file name"@)
    } else if code == "7"@ {
        asks(SessionView { stage: Stage::LoadFile, ..pre }, post, reply, "Enter file name to read"@)
    } else {
        ends(pre, pre.tasks, post, reply, "unrecognized command\n"@)
    }
}

/// The task that the answers so far and the priority answer describe is
/// appended, with a creation time of its own.
pub open spec fn on_add(pre: SessionView, answer: Seq<char>, post: SessionView, reply: Reply) -> bool {
    &&& post.tasks.len() == pre.tasks.len() + 1
    &&& post.tasks.drop_last() == pre.tasks
    &&& post.tasks.last().name == pre.name
    &&& post.tasks.last().description == pre.description
    &&& post.tasks.last().priority == chosen(answer)
    &&& post.tasks.last().add_time.wf()
    &&& ends(pre, post.tasks, post, reply, warning(answer))
}

/// The first task with the answered name is shown.
pub open spec fn on_find(pre: SessionView, answer: Seq<char>, post: SessionView, reply: Reply) -> bool {
    match first_named(pre.tasks, answer) {
        Some(i) => ends(pre, pre.tasks, post, reply, pre.tasks[i].block()),
        None => ends(pre, pre.tasks, post, reply, "Nothing found\n"@),
    }
}

/// The first task named like the target takes the answered name, description
/// and priority, and keeps its creation time.
pub open spec fn on_edit(pre: SessionView, answer: Seq<char>, post: SessionView, reply: Reply) -> bool {
    match first_named(pre.tasks, pre.target) {
        Some(i) => ends(
            pre,
            pre.tasks.update(
                i,
                TaskView {
                    name: pre.name,
                    description: pre.description,
                    priority: chosen(answer),
                    add_time: pre.tasks[i].add_time,
                },
            ),
            post,
            reply,
            warning(answer) + "edited ok "@ + quoted_line(
                "Task "@ + pre.target + " updated successfully"@,
            ),
        ),
        None => ends(
            pre,
            pre.tasks,
            post,
            reply,
            warning(answer) + quoted_line("Task \""@ + pre.target + "\" doesn't exist"@),
        ),
    }
}

/// The first task with the answered name is removed.
pub open spec fn on_remove(pre: SessionView, answer: Seq<char>, post: SessionView, reply: Reply) -> bool {
    match first_named(pre.tasks, answer) {
        Some(i) => ends(
            pre,
            pre.tasks.remove(i),
            post,
            reply,
            quoted_line("Task "@ + answer + " removed"@),
        ),
        None => ends(
            pre,
            pre.tasks,
            post,
            reply,
            quoted_line("Task "@ + answer + " doesn't removed"@),
        ),
    }
}

/// The answered path is kept and probed; nothing is printed.
pub open spec fn probes(next: SessionView, post: SessionView, reply: Reply) -> bool {
    &&& post == next
    &&& reply.output@ == Seq::<char>::empty()
    &&& reply.request matches Request::Probe(path)
    &&& path@ == next.path
}

/// What a trimmed line of input does.
pub open spec fn on_line(pre: SessionView, answer: Seq<char>, post: SessionView, reply: Reply) -> bool {
    match pre.stage {
        Stage::Command => on_command(pre, answer, post, reply),
        Stage::AddName => asks(
            SessionView { stage: Stage::AddDescription, name: answer, ..pre },
            post,
            reply,
            "Enter your task description"@,
        ),
        Stage::AddDescription => asks(
            SessionView { stage: Stage::AddPriority, description: answer, ..pre },
            post,
            reply,
            "Enter new task priority"@,
        ),
        Stage::AddPriority => on_add(pre, answer, post, reply),
        Stage::FindName => on_find(pre, answer, post, reply),
        Stage::EditTarget => asks(
            SessionView { stage: Stage::EditName, target: answer, ..pre },
            post,
            reply,
            "Enter your task name"@,
        ),
        Stage::EditName => asks(
            SessionView { stage: Stage::EditDescription, name: answer, ..pre },
            post,
            reply,
            "Enter your task description"@,
        ),
        Stage::EditDescription => asks(
            SessionView { stage: Stage::EditPriority, description: answer, ..pre },
            post,
            reply,
            "Enter new task priority"@,
        ),
        Stage::EditPriority => on_edit(pre, answer, post, reply),
        Stage::RemoveName => on_remove(pre, answer, post, reply),
        Stage::SaveFile => probes(
            SessionView { stage: Stage::SaveProbe, path: answer, ..pre },
            post,
            reply,
        ),
        Stage::LoadFile => probes(
            SessionView { stage: Stage::LoadProbe, path: answer, ..pre },
            post,
            reply,
        ),
        _ => false,
    }
}

/// What the answer to a probe does. Saving goes on only where the path is
/// free, loading only where a file is there.
pub open spec fn on_probe(pre: SessionView, present: bool, post: SessionView, reply: Reply) -> bool {
    if pre.stage == Stage::SaveProbe {
        if present {
            ends(pre, pre.tasks, post, reply, quoted_line("\""@ + pre.path + "\" already exists"@))
        } else {
            match snapshot_text(pre.tasks) {
                Some(text) => {
                    &&& post == SessionView { stage: Stage::SaveWrite, ..pre }
                    &&& reply.output@ == Seq::<char>::empty()
                    &&& reply.request matches Request::Write(path, written)
                    &&& path@ == pre.path
                    &&& written@ == text
                },
                None => exists|message: Seq<char>|
                    has_prefix(message, "Failed to write to file: "@) && #[trigger] ends(
                        pre,
                        pre.tasks,
                        post,
                        reply,
                        quoted_line(message),
                    ),
            }
        }
    } else {
        if present {
            &&& post == SessionView { stage: Stage::LoadRead, ..pre }
            &&& reply.output@ == Seq::<char>::empty()
            &&& reply.request matches Request::Fetch(path)
            &&& path@ == pre.path
        } else {
            ends(pre, pre.tasks, post, reply, quoted_line("\""@ + pre.path + "\" doesn't exists"@))
        }
    }
}

/// What the report on writing does.
pub open spec fn on_wrote(pre: SessionView, report: WriteReport, post: SessionView, reply: Reply) -> bool {
    match report {
        WriteReport::Written => ends(
            pre,
            pre.tasks,
            post,
            reply,
            quoted_line("Data stored Successfully"@),
        ),
        WriteReport::CreateFailed(why) => ends(
            pre,
            pre.tasks,
            post,
            reply,
            quoted_line("Failed to create file: "@ + why@),
        ),
        WriteReport::WriteFailed(why) => ends(
            pre,
            pre.tasks,
            post,
            reply,
            quoted_line("Failed to write to file: "@ + why@),
        ),
    }
}

/// What the report on reading does. Only a snapshot that can be read replaces
/// the tasks.
pub open spec fn on_fetched(pre: SessionView, report: ReadReport, post: SessionView, reply: Reply) -> bool {
    match report {
        ReadReport::Text(text) => if snapshot_readable(text@) {
            &&& snapshot_gives(text@, post.tasks)
            &&& ends(pre, post.tasks, post, reply, quoted_line("Data stored Successfully"@))
        } else {
            exists|message: Seq<char>|
                has_prefix(message, "err "@) && #[trigger] ends(
                    pre,
                    pre.tasks,
                    post,
                    reply,
                    quoted_line(message),
                )
        },
        ReadReport::OpenFailed(why) => ends(
            pre,
            pre.tasks,
            post,
            reply,
            quoted_line("Failed to create file: "@ + why@),
        ),
        ReadReport::ReadFailed(why) => ends(
            pre,
            pre.tasks,
            post,
            reply,
            quoted_line("err "@ + why@),
        ),
    }
}

/// One step of the session: from the state `pre` and the event to the state
/// `post` and the reply.
pub open spec fn stepped(pre: SessionView, event: Event, post: SessionView, reply: Reply) -> bool {
    match event {
        Event::Line(raw) => on_line(pre, trimmed(raw@), post, reply),
        Event::InputFailed(why) => ends(pre, pre.tasks, post, reply, "Err "@ + why@ + "\n"@),
        Event::Probed(present) => on_probe(pre, present, post, reply),
        Event::Wrote(report) => on_wrote(pre, report, post, reply),
        Event::Fetched(report) => on_fetched(pre, report, post, reply),
    }
}

/// The request of a reply is the one that the new stage waits for.
pub open spec fn fits(stage: Stage, request: Request) -> bool {
    match request {
        Request::Line => awaits_line(stage),
        Request::Probe(_) => stage == Stage::SaveProbe || stage == Stage::LoadProbe,
        Request::Write(_, _) => stage == Stage::SaveWrite,
        Request::Fetch(_) => stage == Stage::LoadRead,
    }
}

/// After every step the session waits for the answer to the request it has
/// just made, so the caller can always go on; and the menu stays as it is.
pub proof fn law_request_fits_stage(pre: SessionView, event: Event, post: SessionView, reply: Reply)
    requires
        expects(pre.stage, event),
        stepped(pre, event, post, reply),
    ensures
        fits(post.stage, reply.request),
        post.menu == pre.menu,
{
}

/// Saving never touches a path that is taken: when the probe says that a
/// file is there, the session asks for no write, reports the failure with
/// the path in it, keeps its tasks and waits for the next command.
pub proof fn law_taken_path_is_not_written(pre: SessionView, post: SessionView, reply: Reply)
    requires
        pre.stage == Stage::SaveProbe,
        stepped(pre, Event::Probed(true), post, reply),
    ensures
        reply.request is Line,
        post.tasks == pre.tasks,
        post.stage == Stage::Command,
        reply.output@ == quoted_line("\""@ + pre.path + "\" already exists"@) + closing(),
{
}

/// Only four steps change the tasks: the last answer of an addition, of an
/// edit or of a removal, and a snapshot that was read. Every other step
/// leaves them as they are.
pub proof fn law_tasks_change_only_by_commands(
    pre: SessionView,
    event: Event,
    post: SessionView,
    reply: Reply,
)
    requires
        expects(pre.stage, event),
        stepped(pre, event, post, reply),
        pre.stage != Stage::AddPriority,
        pre.stage != Stage::EditPriority,
        pre.stage != Stage::RemoveName,
        pre.stage != Stage::LoadRead,
    ensures
        post.tasks == pre.tasks,
{
}

/// One console session with its store.
pub struct ConsoleManager {
    tasks_manager: TasksManager,
    menu_options: Vec<String>,
    stage: Stage,
    target: String,
    name: String,
    description: String,
    path: String,
}

impl View for ConsoleManager {
    type V = SessionView;

    closed spec fn view(&self) -> SessionView {
        SessionView {
            menu: self.menu_options.deep_view(),
            tasks: self.tasks_manager@,
            stage: self.stage,
            target: self.target@,
            name: self.name@,
            description: self.description@,
            path: self.path@,
        }
    }
}

impl ConsoleManager {
    /// A session with an empty store that waits for its first command code.
    pub fn new() -> (session: ConsoleManager)
        ensures
            session@ == (SessionView {
                menu: menu_entries(),
                tasks: Seq::empty(),
                stage: Stage::Command,
                target: Seq::empty(),
                name: Seq::empty(),
                description: Seq::empty(),
                path: Seq::empty(),
            }),
    {
        let mut menu_options: Vec<String> = Vec::new();
        menu_options.push("Add Task".to_owned());
        menu_options.push("Find task".to_owned());
        menu_options.push("Edit task".to_owned());
        menu_options.push("Remove task".to_owned());
        menu_options.push("Print task".to_owned());
        menu_options.push("Store task to file".to_owned());
        menu_options.push("Read task from file".to_owned());
        assert(menu_options.deep_view() == menu_entries());
        ConsoleManager {
            tasks_manager: TasksManager::new(),
            menu_options,
            stage: Stage::Command,
            target: String::new(),
            name: String::new(),
            description: String::new(),
            path: String::new(),
        }
    }

    /// The menu: one line per entry, numbered from one.
    pub fn print_menu(&self) -> (out: String)
        ensures
            out@ == menu_text(self@.menu, self@.menu.len()),
    {
        let mut out = String::new();
        let mut i: usize = 0;
        while i < self.menu_options.len()
            invariant
                i <= self.menu_options.len(),
                out@ == menu_text(self.menu_options.deep_view(), i as nat),
            decreases self.menu_options.len() - i,
        {
            let number = decimal(i + 1);
            out.append(number.as_str());
            out.append(": ");
            out.append(self.menu_options[i].as_str());
            out.append("\n");
            i += 1;
        }
        out
    }

    /// The opening of the session: the menu and the prompt for the first
    /// command code.
    pub fn start(&self) -> (reply: Reply)
        ensures
            reply.output@ == menu_text(self@.menu, self@.menu.len()) + ask("Enter command index"@),
            reply.request is Line,
    {
        let mut output = self.print_menu();
        let prompt = quote("Enter command index");
        output.append(prompt.as_str());
        Reply { output, request: Request::Line }
    }

    /// The store of the session.
    pub fn tasks_manager(&self) -> (store: &TasksManager)
        ensures
            store@ == self@.tasks,
    {
        &self.tasks_manager
    }

    /// What the session is waiting for.
    pub fn stage(&self) -> (stage: Stage)
        ensures
            stage == self@.stage,
    {
        self.stage
    }

    /// Whether `event` answers what the session asked for last.
    pub fn expects(&self, event: &Event) -> (r: bool)
        ensures
            r == expects(self@.stage, *event),
    {
        match event {
            Event::Line(_) => !matches!(
                self.stage,
                Stage::SaveProbe | Stage::SaveWrite | Stage::LoadProbe | Stage::LoadRead
            ),
            Event::InputFailed(_) => matches!(self.stage, Stage::Command),
            Event::Probed(_) => matches!(self.stage, Stage::SaveProbe | Stage::LoadProbe),
            Event::Wrote(_) => matches!(self.stage, Stage::SaveWrite),
            Event::Fetched(_) => matches!(self.stage, Stage::LoadRead),
        }
    }

    /// Moves to `stage` and asks `query`.
    fn ask_for(&mut self, stage: Stage, query: &str) -> (reply: Reply)
        ensures
            asks(SessionView { stage, ..old(self)@ }, final(self)@, reply, query@),
    {
        self.stage = stage;
        Reply { output: quote(query), request: Request::Line }
    }

    /// Ends the command with `body` as its output.
    fn finish(&mut self, body: String) -> (reply: Reply)
        ensures
            ends(old(self)@, old(self)@.tasks, final(self)@, reply, body@),
    {
        self.stage = Stage::Command;
        let mut output = body;
        output.append("\n");
        let prompt = quote("Enter command index");
        output.append(prompt.as_str());
        assert(output@ =~= body@ + closing());
        Reply { output, request: Request::Line }
    }

    /// Ends the command with `message` between quotes on a line of its own,
    /// behind `lead`.
    fn report(&mut self, lead: String, message: &str) -> (reply: Reply)
        ensures
            ends(
                old(self)@,
                old(self)@.tasks,
                final(self)@,
                reply,
                lead@ + quoted_line(message@),
            ),
    {
        let mut body = lead;
        let quoted = quote(message);
        body.append(quoted.as_str());
        body.append("\n");
        assert(body@ =~= lead@ + quoted_line(message@));
        self.finish(body)
    }

    /// Takes a command code.
    fn take_command(&mut self, code: &str) -> (reply: Reply)
        ensures
            on_command(old(self)@, code@, final(self)@, reply),
    {
        if same_text(code, "1") {
            self.ask_for(Stage::AddName, "Enter your task name")
        } else if same_text(code, "2") {
            self.ask_for(Stage::FindName, "enter task name to find")
        } else if same_text(code, "3") {
            self.ask_for(Stage::EditTarget, "enter task name to edit")
        } else if same_text(code, "4") {
            self.ask_for(Stage::RemoveName, "enter task name to remove")
        } else if same_text(code, "5") {
            let body = self.tasks_manager.render_all();
            self.finish(body)
        } else if same_text(code, "6") {
            self.ask_for(Stage::SaveFile, "Enter file name")
        } else if same_text(code, "7") {
            self.ask_for(Stage::LoadFile, "Enter file name to read")
        } else {
            self.finish("unrecognized command\n".to_owned())
        }
    }

    /// Adds the task that the answers describe.
    fn take_add(&mut self, answer: &str) -> (reply: Reply)
        ensures
            on_add(old(self)@, answer@, final(self)@, reply),
    {
        let (task, note) = Task::new_from_console(
            self.name.clone(),
            self.description.clone(),
            answer,
        );
        self.tasks_manager.add_task(task);
        assert(self@.tasks.drop_last() == old(self)@.tasks);
        self.finish(note)
    }

    /// Shows the first task named `answer`.
    fn take_find(&mut self, answer: &str) -> (reply: Reply)
        ensures
            on_find(old(self)@, answer@, final(self)@, reply),
    {
        let body = match self.tasks_manager.find_task(answer) {
            Some(i) => match self.tasks_manager.get(i) {
                Some(task) => task.render(),
                None => String::new(),
            },
            None => "Nothing found\n".to_owned(),
        };
        proof {
            lemma_first_named(self@.tasks, answer@);
        }
        self.finish(body)
    }

    /// Edits the first task named like the target.
    fn take_edit(&mut self, answer: &str) -> (reply: Reply)
        ensures
            on_edit(old(self)@, answer@, final(self)@, reply),
    {
        let (task, note) = Task::new_from_console(
            self.name.clone(),
            self.description.clone(),
            answer,
        );
        let target = self.target.clone();
        let outcome = self.tasks_manager.edit_task(target.as_str(), task);
        proof {
            lemma_first_named(old(self)@.tasks, old(self)@.target);
        }
        match outcome {
            Ok(message) => {
                let mut lead = note;
                lead.append("edited ok ");
                self.report(lead, message.as_str())
            },
            Err(e) => self.report(note, e.message.as_str()),
        }
    }

    /// Removes the first task named `answer`.
    fn take_remove(&mut self, answer: &str) -> (reply: Reply)
        ensures
            on_remove(old(self)@, answer@, final(self)@, reply),
    {
        match self.tasks_manager.remove_task(answer) {
            Ok(message) => self.report(String::new(), message.as_str()),
            Err(e) => self.report(String::new(), e.message.as_str()),
        }
    }

    /// Keeps the answered path and has it probed.
    fn take_path(&mut self, stage: Stage, answer: &str) -> (reply: Reply)
        ensures
            probes(SessionView { stage, path: answer@, ..old(self)@ }, final(self)@, reply),
    {
        self.stage = stage;
        self.path = answer.to_owned();
        Reply { output: String::new(), request: Request::Probe(answer.to_owned()) }
    }

    /// Takes a line of input that has been trimmed already.
    pub fn take_line(&mut self, answer: &str) -> (reply: Reply)
        requires
            awaits_line(old(self)@.stage),
        ensures
            on_line(old(self)@, answer@, final(self)@, reply),
    {
        match self.stage {
            Stage::Command => self.take_command(answer),
            Stage::AddName => {
                self.name = answer.to_owned();
                self.ask_for(Stage::AddDescription, "Enter your task description")
            },
            Stage::AddDescription => {
                self.description = answer.to_owned();
                self.ask_for(Stage::AddPriority, "Enter new task priority")
            },
            Stage::AddPriority => self.take_add(answer),
            Stage::FindName => self.take_find(answer),
            Stage::EditTarget => {
                self.target = answer.to_owned();
                self.ask_for(Stage::EditName, "Enter your task name")
            },
            Stage::EditName => {
                self.name = answer.to_owned();
                self.ask_for(Stage::EditDescription, "Enter your task description")
            },
            Stage::EditDescription => {
                self.description = answer.to_owned();
                self.ask_for(Stage::EditPriority, "Enter new task priority")
            },
            Stage::EditPriority => self.take_edit(answer),
            Stage::RemoveName => self.take_remove(answer),
            Stage::SaveFile => self.take_path(Stage::SaveProbe, answer),
            _ => self.take_path(Stage::LoadProbe, answer),
        }
    }

    /// Takes the answer to a probe.
    fn take_probe(&mut self, present: bool) -> (reply: Reply)
        requires
            old(self)@.stage == Stage::SaveProbe || old(self)@.stage == Stage::LoadProbe,
        ensures
            on_probe(old(self)@, present, final(self)@, reply),
    {
        let path = self.path.clone();
        if matches!(self.stage, Stage::SaveProbe) {
            match self.tasks_manager.store_to_file(path.as_str(), present) {
                Ok(text) => {
                    self.stage = Stage::SaveWrite;
                    Reply { output: String::new(), request: Request::Write(path, text) }
                },
                Err(e) => self.report(String::new(), e.message.as_str()),
            }
        } else {
            match TasksManager::file_to_read(path.as_str(), present) {
                Ok(_) => {
                    self.stage = Stage::LoadRead;
                    Reply { output: String::new(), request: Request::Fetch(path) }
                },
                Err(e) => self.report(String::new(), e.message.as_str()),
            }
        }
    }

    /// Takes the report on writing the snapshot.
    fn take_wrote(&mut self, report: WriteReport) -> (reply: Reply)
        ensures
            on_wrote(old(self)@, report, final(self)@, reply),
    {
        match TasksManager::stored(report) {
            Ok(message) => self.report(String::new(), message.as_str()),
            Err(e) => self.report(String::new(), e.message.as_str()),
        }
    }

    /// Takes the report on reading the snapshot.
    fn take_fetched(&mut self, report: ReadReport) -> (reply: Reply)
        ensures
            on_fetched(old(self)@, report, final(self)@, reply),
    {
        match self.tasks_manager.read_from_file(report) {
            Ok(message) => self.report(String::new(), message.as_str()),
            Err(e) => self.report(String::new(), e.message.as_str()),
        }
    }

    /// One step: takes what happened and says what to print and what to do
    /// next. The event has to answer the last request.
    pub fn process_command(&mut self, event: Event) -> (reply: Reply)
        requires
            expects(old(self)@.stage, event),
        ensures
            stepped(old(self)@, event, final(self)@, reply),
    {
        match event {
            Event::Line(raw) => {
                let answer = trim(raw.as_str());
                self.take_line(answer)
            },
            Event::InputFailed(why) => {
                let mut body = "Err ".to_owned();
                body.append(why.as_str());
                body.append("\n");
                self.finish(body)
            },
            Event::Probed(present) => self.take_probe(present),
            Event::Wrote(report) => self.take_wrote(report),
            Event::Fetched(report) => self.take_fetched(report),
        }
    }
}

} // verus!
