//! The ordered collection of tasks.

use vstd::prelude::*;
use vstd::string::*;

use crate::error::{ErrorKind, StoreError};
use crate::snapshot::{decode_tasks, encode_tasks, snapshot_gives, snapshot_readable, snapshot_text};
use crate::task::{Task, TaskView};
use crate::text::{has_prefix, join3};

verus! {

/// `i` is the position of the first task named `name`.
pub open spec fn first_at(tasks: Seq<TaskView>, name: Seq<char>, i: int) -> bool {
    &&& 0 <= i < tasks.len()
    &&& tasks[i].name == name
    &&& forall|j: int| 0 <= j < i ==> (#[trigger] tasks[j]).name != name
}

/// Some task is named `name`.
pub open spec fn has_named(tasks: Seq<TaskView>, name: Seq<char>) -> bool {
    exists|i: int| 0 <= i < tasks.len() && (#[trigger] tasks[i]).name == name
}

/// The position of the first task named `name`, if there is one.
pub open spec fn first_named(tasks: Seq<TaskView>, name: Seq<char>) -> Option<int> {
    if exists|i: int| first_at(tasks, name, i) {
        Some(choose|i: int| first_at(tasks, name, i))
    } else {
        None
    }
}

/// The block of each task, in sequence order.
pub open spec fn block_list(tasks: Seq<TaskView>) -> Seq<Seq<char>> {
    tasks.map_values(|t: TaskView| t.block())
}

/// The blocks of all tasks, one after another in sequence order.
pub open spec fn blocks(tasks: Seq<TaskView>) -> Seq<char> {
    block_list(tasks).flatten()
}

/// The tasks after the first one named `name` has been removed; the same
/// tasks where none carries the name.
pub open spec fn after_remove(tasks: Seq<TaskView>, name: Seq<char>) -> Seq<TaskView> {
    match first_named(tasks, name) {
        Some(i) => tasks.remove(i),
        None => tasks,
    }
}

/// The tasks after the first one named `name` has taken name, description
/// and priority of `updated`; the same tasks where none carries the name.
pub open spec fn after_edit(tasks: Seq<TaskView>, name: Seq<char>, updated: TaskView) -> Seq<
    TaskView,
> {
    match first_named(tasks, name) {
        Some(i) => tasks.update(i, tasks[i].revised(updated)),
        None => tasks,
    }
}

/// The tasks after those of `added` have been appended to `start` one by one.
pub open spec fn after_adds(start: Seq<TaskView>, added: Seq<TaskView>) -> Seq<TaskView>
    decreases added.len(),
{
    if added.len() == 0 {
        start
    } else {
        after_adds(start, added.drop_last()).push(added.last())
    }
}

/// No two tasks are named `name`.
pub open spec fn at_most_once(tasks: Seq<TaskView>, name: Seq<char>) -> bool {
    forall|i: int, j: int|
        0 <= i < tasks.len() && 0 <= j < tasks.len() && (#[trigger] tasks[i]).name == name && (
        #[trigger] tasks[j]).name == name ==> i == j
}

/// The views of a vector of tasks.
pub open spec fn views(tasks: Seq<Task>) -> Seq<TaskView> {
    tasks.map_values(|t: Task| t@)
}

/// At most one position is the first one for a name.
pub proof fn lemma_first_at_unique(tasks: Seq<TaskView>, name: Seq<char>, i: int, j: int)
    requires
        first_at(tasks, name, i),
        first_at(tasks, name, j),
    ensures
        i == j,
{
}

/// `first_named` is the first position where it is a position, and no task
/// carries the name where it is `None`.
pub proof fn lemma_first_named(tasks: Seq<TaskView>, name: Seq<char>)
    ensures
        match first_named(tasks, name) {
            Some(i) => first_at(tasks, name, i),
            None => !has_named(tasks, name),
        },
        forall|i: int| first_at(tasks, name, i) ==> first_named(tasks, name) == Some(i),
{
    if exists|i: int| first_at(tasks, name, i) {
        let k = choose|i: int| first_at(tasks, name, i);
        assert forall|i: int| first_at(tasks, name, i) implies first_named(tasks, name) == Some(
            i,
        ) by {
            lemma_first_at_unique(tasks, name, i, k);
        }
    } else {
        if has_named(tasks, name) {
            let w = choose|i: int| 0 <= i < tasks.len() && (#[trigger] tasks[i]).name == name;
            lemma_least_named(tasks, name, w);
        }
    }
}

/// Below any position that carries the name there is a first one.
proof fn lemma_least_named(tasks: Seq<TaskView>, name: Seq<char>, w: int)
    requires
        0 <= w < tasks.len(),
        tasks[w].name == name,
    ensures
        exists|i: int| first_at(tasks, name, i),
    decreases w,
{
    if forall|j: int| 0 <= j < w ==> (#[trigger] tasks[j]).name != name {
        assert(first_at(tasks, name, w));
    } else {
        let j = choose|j: int| 0 <= j < w && (#[trigger] tasks[j]).name == name;
        lemma_least_named(tasks, name, j);
    }
}

/// What came of creating a snapshot file and writing to it.
#[derive(Clone, Debug, PartialEq, Eq)]
pub enum WriteReport {
    /// The file was created and holds the snapshot.
    Written,
    /// The file could not be created; the reason as text.
    CreateFailed(String),
    /// The file was created and writing to it failed; the reason as text.
    WriteFailed(String),
}

/// What came of opening a snapshot file and reading it.
#[derive(Clone, Debug, PartialEq, Eq)]
pub enum ReadReport {
    /// The whole content of the file.
    Text(String),
    /// The file could not be opened; the reason as text.
    OpenFailed(String),
    /// The file was opened and reading it failed; the reason as text.
    ReadFailed(String),
}

/// The blocks of a store that got one more task are the blocks it had,
/// followed by the block of the new task.
pub proof fn lemma_blocks_push(tasks: Seq<TaskView>, task: TaskView)
    ensures
        blocks(tasks.push(task)) == blocks(tasks) + task.block(),
{
    assert(block_list(tasks.push(task)) == block_list(tasks).push(task.block()));
    block_list(tasks).lemma_flatten_push(task.block());
}

/// Rendering after any sequence of additions: the tasks stand in the order
/// in which they were added, behind those that were there, and the output
/// is what was rendered before, followed by one block per added task in that
/// order.
pub proof fn law_render_after_adds(start: Seq<TaskView>, added: Seq<TaskView>)
    ensures
        after_adds(start, added) == start + added,
        blocks(after_adds(start, added)) == blocks(start) + block_list(added).flatten(),
        block_list(added).len() == added.len(),
        forall|i: int| 0 <= i < added.len() ==> (#[trigger] block_list(added)[i]) == added[i].block(),
    decreases added.len(),
{
    if added.len() > 0 {
        let front = added.drop_last();
        law_render_after_adds(start, front);
        assert((start + front).push(added.last()) == start + added);
        lemma_blocks_push(start + front, added.last());
        assert(block_list(added) == block_list(front).push(added.last().block()));
        block_list(front).lemma_flatten_push(added.last().block());
    }
}

/// Looking up a name that some task carries gives the position of the first
/// such task; it is the position of that task where none before it carries
/// the name.
pub proof fn law_find_present(tasks: Seq<TaskView>, name: Seq<char>, i: int)
    requires
        0 <= i < tasks.len(),
        tasks[i].name == name,
    ensures
        first_named(tasks, name) is Some,
        0 <= first_named(tasks, name)->0 <= i,
        tasks[first_named(tasks, name)->0].name == name,
        (forall|j: int| 0 <= j < i ==> (#[trigger] tasks[j]).name != name) ==> first_named(
            tasks,
            name,
        ) == Some(i),
{
    lemma_first_named(tasks, name);
}

/// Looking up a name that was never added finds nothing: where none of the
/// added tasks carries the name, the store that started empty has no task of
/// that name.
pub proof fn law_find_never_added(added: Seq<TaskView>, name: Seq<char>)
    requires
        forall|i: int| 0 <= i < added.len() ==> (#[trigger] added[i]).name != name,
    ensures
        first_named(after_adds(Seq::empty(), added), name) is None,
{
    law_render_after_adds(Seq::empty(), added);
    lemma_first_named(added, name);
}

/// After a task has been removed by its name, looking the name up finds
/// nothing, provided that no two tasks carried it. (Only the first of
/// several tasks of one name is removed.)
pub proof fn law_remove_then_find(tasks: Seq<TaskView>, name: Seq<char>)
    requires
        at_most_once(tasks, name),
    ensures
        first_named(after_remove(tasks, name), name) is None,
{
    lemma_first_named(tasks, name);
    lemma_first_named(after_remove(tasks, name), name);
}

/// Removing a name that no task carries changes nothing.
pub proof fn law_remove_absent(tasks: Seq<TaskView>, name: Seq<char>)
    requires
        !has_named(tasks, name),
    ensures
        after_remove(tasks, name) == tasks,
{
    lemma_first_named(tasks, name);
}

/// Editing keeps the number of tasks, their order and every creation time.
/// The first task of the name takes name, description and priority of the
/// replacement; all others stay as they are; where no task carries the
/// name, nothing changes.
pub proof fn law_edit(tasks: Seq<TaskView>, name: Seq<char>, updated: TaskView)
    ensures
        after_edit(tasks, name, updated).len() == tasks.len(),
        forall|j: int|
            0 <= j < tasks.len() ==> (#[trigger] after_edit(tasks, name, updated)[j]).add_time
                == tasks[j].add_time,
        match first_named(tasks, name) {
            Some(i) => {
                &&& first_at(tasks, name, i)
                &&& after_edit(tasks, name, updated)[i].name == updated.name
                &&& after_edit(tasks, name, updated)[i].description == updated.description
                &&& after_edit(tasks, name, updated)[i].priority == updated.priority
                &&& forall|j: int|
                    0 <= j < tasks.len() && j != i ==> (#[trigger] after_edit(
                        tasks,
                        name,
                        updated,
                    )[j]) == tasks[j]
            },
            None => !has_named(tasks, name) && after_edit(tasks, name, updated) == tasks,
        },
{
    lemma_first_named(tasks, name);
}

/// The tasks of one session, in the order in which they were added.
pub struct TasksManager {
    tasks: Vec<Task>,
}

impl View for TasksManager {
    type V = Seq<TaskView>;

    closed spec fn view(&self) -> Seq<TaskView> {
        views(self.tasks@)
    }
}

impl TasksManager {
    /// An empty store.
    pub fn new() -> (store: TasksManager)
        ensures
            store@ == Seq::<TaskView>::empty(),
    {
        TasksManager { tasks: Vec::new() }
    }

    /// Appends `task`.
    pub fn add_task(&mut self, task: Task)
        ensures
            final(self)@ == old(self)@.push(task@),
    {
        self.tasks.push(task);
    }

    /// The position of the first task whose name is exactly `name`.
    pub fn find_task(&self, name: &str) -> (found: Option<usize>)
        ensures
            match found {
                Some(i) => first_named(self@, name@) == Some(i as int) && first_at(
                    self@,
                    name@,
                    i as int,
                ),
                None => first_named(self@, name@) is None && !has_named(self@, name@),
            },
    {
        let wanted = name.to_owned();
        let mut i: usize = 0;
        while i < self.tasks.len()
            invariant
                i <= self.tasks.len(),
                wanted@ == name@,
                forall|j: int| 0 <= j < i ==> (#[trigger] self@[j]).name != name@,
            decreases self.tasks.len() - i,
        {
            if self.tasks[i].name == wanted {
                proof {
                    assert(first_at(self@, name@, i as int));
                    lemma_first_named(self@, name@);
                }
                return Some(i);
            }
            i += 1;
        }
        proof {
            lemma_first_named(self@, name@);
        }
        None
    }

    /// Removes the first task named `name`; the tasks behind it move one
    /// position forward. Without such a task nothing changes.
    pub fn remove_task(&mut self, name: &str) -> (outcome: Result<String, StoreError>)
        ensures
            final(self)@ == after_remove(old(self)@, name@),
            match outcome {
                Ok(message) => first_named(old(self)@, name@) is Some && message@ == "Task "@
                    + name@ + " removed"@,
                Err(e) => first_named(old(self)@, name@) is None && e.kind
                    == ErrorKind::TaskNotFound && e.message@ == "Task "@ + name@
                    + " doesn't removed"@,
            },
    {
        match self.find_task(name) {
            Some(i) => {
                proof {
                    lemma_first_named(self@, name@);
                }
                self.tasks.remove(i);
                Ok(join3("Task ", name, " removed"))
            },
            None => Err(StoreError::framed(ErrorKind::TaskNotFound, "Task ", name, " doesn't removed")),
        }
    }

    /// Gives the first task named `name` the name, description and priority
    /// of `updated`; its position and its creation time stay. Without such a
    /// task nothing changes.
    pub fn edit_task(&mut self, name: &str, updated: Task) -> (outcome: Result<String, StoreError>)
        ensures
            final(self)@ == after_edit(old(self)@, name@, updated@),
            match outcome {
                Ok(message) => first_named(old(self)@, name@) is Some && message@ == "Task "@
                    + name@ + " updated successfully"@,
                Err(e) => first_named(old(self)@, name@) is None && e.kind
                    == ErrorKind::TaskNotFound && e.message@ == "Task \""@ + name@
                    + "\" doesn't exist"@,
            },
    {
        match self.find_task(name) {
            Some(i) => {
                proof {
                    lemma_first_named(self@, name@);
                }
                let add_time = self.tasks[i].add_time;
                self.tasks[i] = Task {
                    name: updated.name,
                    description: updated.description,
                    priority: updated.priority,
                    add_time,
                };
                Ok(join3("Task ", name, " updated successfully"))
            },
            None => Err(StoreError::framed(ErrorKind::TaskNotFound, "Task \"", name, "\" doesn't exist")),
        }
    }

    /// The blocks of all tasks in store order; the empty text for an empty
    /// store.
    pub fn render_all(&self) -> (out: String)
        ensures
            out@ == blocks(self@),
    {
        let mut out = String::new();
        let mut i: usize = 0;
        while i < self.tasks.len()
            invariant
                i <= self.tasks.len(),
                out@ == blocks(self@.take(i as int)),
            decreases self.tasks.len() - i,
        {
            let block = self.tasks[i].render();
            out.append(block.as_str());
            proof {
                assert(self@.take(i + 1) == self@.take(i as int).push(self@[i as int]));
                lemma_blocks_push(self@.take(i as int), self@[i as int]);
            }
            i += 1;
        }
        assert(self@.take(i as int) == self@);
        out
    }

    /// The snapshot of the store: all tasks as one JSON array.
    pub fn to_json(&self) -> (r: Result<String, StoreError>)
        ensures
            match r {
                Ok(s) => snapshot_text(self@) == Some(s@),
                Err(e) => snapshot_text(self@) is None && e.kind == ErrorKind::SerializationError
                    && has_prefix(e.message@, "Failed to write to file: "@),
            },
    {
        encode_tasks(&self.tasks)
    }

    /// The first half of saving to `filename`, given whether that path is
    /// taken: the snapshot that is to be written to a new file there. A path
    /// that is taken is never written to.
    pub fn store_to_file(&self, filename: &str, present: bool) -> (r: Result<String, StoreError>)
        ensures
            match r {
                Ok(s) => !present && snapshot_text(self@) == Some(s@),
                Err(e) => if present {
                    e.kind == ErrorKind::FileAlreadyExists && e.message@ == "\""@ + filename@
                        + "\" already exists"@
                } else {
                    snapshot_text(self@) is None && e.kind == ErrorKind::SerializationError
                        && has_prefix(e.message@, "Failed to write to file: "@)
                },
            },
    {
        if present {
            Err(StoreError::framed(ErrorKind::FileAlreadyExists, "\"", filename, "\" already exists"))
        } else {
            self.to_json()
        }
    }

    /// The second half of saving: what the attempt to create and write the
    /// file is reported as.
    pub fn stored(report: WriteReport) -> (r: Result<String, StoreError>)
        ensures
            match report {
                WriteReport::Written => r is Ok && r->Ok_0@ == "Data stored Successfully"@,
                WriteReport::CreateFailed(why) => r is Err && r->Err_0.kind == ErrorKind::IOError
                    && r->Err_0.message@ == "Failed to create file: "@ + why@,
                WriteReport::WriteFailed(why) => r is Err && r->Err_0.kind == ErrorKind::IOError
                    && r->Err_0.message@ == "Failed to write to file: "@ + why@,
            },
    {
        match report {
            WriteReport::Written => Ok("Data stored Successfully".to_owned()),
            WriteReport::CreateFailed(why) => Err(
                StoreError::prefixed(ErrorKind::IOError, "Failed to create file: ", why.as_str()),
            ),
            WriteReport::WriteFailed(why) => Err(
                StoreError::prefixed(ErrorKind::IOError, "Failed to write to file: ", why.as_str()),
            ),
        }
    }

    /// The first half of loading from `filename`, given whether a file is
    /// there: a path without a file is a failure.
    pub fn file_to_read(filename: &str, present: bool) -> (r: Result<(), StoreError>)
        ensures
            r is Ok <==> present,
            r matches Err(e) ==> e.kind == ErrorKind::FileNotFound && e.message@ == "\""@
                + filename@ + "\" doesn't exists"@,
    {
        if present {
            Ok(())
        } else {
            Err(StoreError::framed(ErrorKind::FileNotFound, "\"", filename, "\" doesn't exists"))
        }
    }

    /// The second half of loading: replaces the contents by the tasks of the
    /// snapshot that was read. Where the file could not be read, or what was
    /// read is no snapshot, the store keeps its tasks.
    pub fn read_from_file(&mut self, report: ReadReport) -> (r: Result<String, StoreError>)
        ensures
            match report {
                ReadReport::Text(text) => if snapshot_readable(text@) {
                    r is Ok && r->Ok_0@ == "Data stored Successfully"@ && snapshot_gives(
                        text@,
                        final(self)@,
                    )
                } else {
                    r is Err && r->Err_0.kind == ErrorKind::DeserializationError && has_prefix(
                        r->Err_0.message@,
                        "err "@,
                    ) && final(self)@ == old(self)@
                },
                ReadReport::OpenFailed(why) => r is Err && r->Err_0.kind == ErrorKind::IOError
                    && r->Err_0.message@ == "Failed to create file: "@ + why@ && final(self)@
                    == old(self)@,
                ReadReport::ReadFailed(why) => r is Err && r->Err_0.kind == ErrorKind::IOError
                    && r->Err_0.message@ == "err "@ + why@ && final(self)@ == old(self)@,
            },
    {
        match report {
            ReadReport::Text(text) => self.load_json(text.as_str()),
            ReadReport::OpenFailed(why) => Err(
                StoreError::prefixed(ErrorKind::IOError, "Failed to create file: ", why.as_str()),
            ),
            ReadReport::ReadFailed(why) => Err(
                StoreError::prefixed(ErrorKind::IOError, "err ", why.as_str()),
            ),
        }
    }

    /// Replaces the contents by the tasks of the snapshot `text`. Where the
    /// text is no snapshot the store keeps its tasks.
    pub fn load_json(&mut self, text: &str) -> (r: Result<String, StoreError>)
        ensures
            match r {
                Ok(s) => snapshot_readable(text@) && snapshot_gives(text@, final(self)@) && s@
                    == "Data stored Successfully"@,
                Err(e) => !snapshot_readable(text@) && final(self)@ == old(self)@ && e.kind
                    == ErrorKind::DeserializationError && has_prefix(e.message@, "err "@),
            },
    {
        match decode_tasks(text) {
            Ok(tasks) => {
                self.tasks = tasks;
                Ok("Data stored Successfully".to_owned())
            },
            Err(e) => Err(e),
        }
    }

    /// The number of tasks.
    pub fn len(&self) -> (n: usize)
        ensures
            n == self@.len(),
    {
        self.tasks.len()
    }

    /// The task at position `i`, if there is one.
    pub fn get(&self, i: usize) -> (task: Option<&Task>)
        ensures
            match task {
                Some(t) => i < self@.len() && t@ == self@[i as int],
                None => i >= self@.len(),
            },
    {
        if i < self.tasks.len() {
            Some(&self.tasks[i])
        } else {
            None
        }
    }
}

} // verus!
