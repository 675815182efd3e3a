//! The JSON snapshot: one array with one record per task.
//!
//! A snapshot is written with one object per task, whose members are `name`,
//! `description`, `priority` and `add_time`, in that order. It is read more
//! freely: a record may also be an array of the four values in that order,
//! an object may hold further members, which are passed over, and a priority
//! may also stand as an object with the label as its only key and `null` as
//! the value.

use serde_json::value::RawValue;
use std::collections::BTreeMap;
use vstd::prelude::*;
use vstd::string::*;

use crate::error::{ErrorKind, StoreError};
use crate::priority::{law_label_reads_back, Priority};
use crate::stamp::{stamp_parsed, Timestamp};
use crate::store::views;
use crate::task::{Task, TaskView};
use crate::text::has_prefix;

verus! {

/// The JSON string literal that the JSON library writes for the text `s`.
pub uninterp spec fn json_quoted(s: Seq<char>) -> Seq<char>;

/// The elements of the JSON array that `text` holds, each as the JSON text
/// that stands for it there. `None` where the JSON library does not read
/// `text` as one array.
pub uninterp spec fn json_items(text: Seq<char>) -> Option<Seq<Seq<char>>>;

/// The members of the JSON object that `text` holds, as pairs of the key and
/// the JSON text of the value, ordered by key; of members with one key the
/// last is kept. `None` where the JSON library does not read `text` as one
/// object.
pub uninterp spec fn json_members(text: Seq<char>) -> Option<Seq<(Seq<char>, Seq<char>)>>;

/// The string that the JSON text `text` holds. `None` where the JSON library
/// does not read `text` as one string.
pub uninterp spec fn json_string(text: Seq<char>) -> Option<Seq<char>>;

/// Whether the JSON library reads the JSON text `text` as `null`.
pub uninterp spec fn json_null(text: Seq<char>) -> bool;

/// Calls `serde_json::to_string` on a string slice.
///
/// Trusted: the call succeeds, and the result is the literal that the JSON
/// library writes for `s`. (It writes a string into memory, where nothing can
/// fail.) Nothing is claimed about the escapes.
#[verifier::external_body]
fn quote_json(s: &str) -> (r: Result<String, String>)
    ensures
        r is Ok,
        r matches Ok(t) ==> t@ == json_quoted(s@),
{
    match serde_json::to_string(s) {
        Ok(t) => Ok(t),
        Err(e) => Err(e.to_string()),
    }
}

/// Calls `serde_json::from_str` for a vector of raw values and hands each
/// out as its text.
///
/// Trusted: the texts are those of the elements that the JSON library finds
/// in `text`, and whether it rejects `text` depends on `text` alone. The
/// error comes back as its message, of which nothing is claimed.
#[verifier::external_body]
fn split_array(text: &str) -> (r: Result<Vec<String>, String>)
    ensures
        match r {
            Ok(items) => json_items(text@) == Some(items.deep_view()),
            Err(_) => json_items(text@) is None,
        },
{
    match serde_json::from_str::<Vec<Box<RawValue>>>(text) {
        Ok(items) => Ok(items.into_iter().map(|v| v.get().to_owned()).collect()),
        Err(e) => Err(e.to_string()),
    }
}

/// Calls `serde_json::from_str` for a map from strings to raw values and
/// hands it out as its pairs in key order, each value as its text.
///
/// Trusted: the pairs are those of the members that the JSON library finds in
/// `text`, and whether it rejects `text` depends on `text` alone. The error
/// comes back as its message, of which nothing is claimed.
#[verifier::external_body]
fn split_object(text: &str) -> (r: Result<Vec<(String, String)>, String>)
    ensures
        match r {
            Ok(members) => json_members(text@) == Some(members.deep_view()),
            Err(_) => json_members(text@) is None,
        },
{
    match serde_json::from_str::<BTreeMap<String, Box<RawValue>>>(text) {
        Ok(map) => Ok(map.into_iter().map(|(k, v)| (k, v.get().to_owned())).collect()),
        Err(e) => Err(e.to_string()),
    }
}

/// Calls `serde_json::from_str` for a string.
///
/// Trusted: the result is the string that the JSON library reads from `text`,
/// `None` where it rejects `text`; both depend on `text` alone.
#[verifier::external_body]
fn read_string(text: &str) -> (r: Option<String>)
    ensures
        match r {
            Some(s) => json_string(text@) == Some(s@),
            None => json_string(text@) is None,
        },
{
    match serde_json::from_str::<String>(text) {
        Ok(s) => Some(s),
        Err(_) => None,
    }
}

/// Calls `serde_json::from_str` for the unit value.
///
/// Trusted: the answer is whether the JSON library reads `text` as `null`,
/// which depends on `text` alone.
#[verifier::external_body]
fn read_null(text: &str) -> (r: bool)
    ensures
        r == json_null(text@),
{
    serde_json::from_str::<()>(text).is_ok()
}

/// A JSON object with the four members of a task in their fixed order, around
/// values that are JSON string literals already.
pub open spec fn object_text(
    name: Seq<char>,
    description: Seq<char>,
    priority: Seq<char>,
    add_time: Seq<char>,
) -> Seq<char> {
    "{\"name\":"@ + name + ",\"description\":"@ + description + ",\"priority\":"@ + priority
        + ",\"add_time\":"@ + add_time + "}"@
}

/// The object written for one task: its name, description, priority label and
/// creation time in RFC 3339 form, in that order, each as a JSON string.
/// `None` where the creation time cannot be written.
pub open spec fn record_text(t: TaskView) -> Option<Seq<char>> {
    match t.add_time.iso() {
        Some(iso) => Some(
            object_text(
                json_quoted(t.name),
                json_quoted(t.description),
                json_quoted(t.priority.label()),
                json_quoted(iso),
            ),
        ),
        None => None,
    }
}

/// The objects of all tasks, separated by commas.
pub open spec fn records_text(tasks: Seq<TaskView>) -> Option<Seq<char>>
    decreases tasks.len(),
{
    if tasks.len() == 0 {
        Some(Seq::empty())
    } else {
        match (records_text(tasks.drop_last()), record_text(tasks.last())) {
            (Some(head), Some(record)) => Some(
                if tasks.len() == 1 {
                    record
                } else {
                    head + ","@ + record
                },
            ),
            _ => None,
        }
    }
}

/// The snapshot of a sequence of tasks: the objects between square brackets.
pub open spec fn snapshot_text(tasks: Seq<TaskView>) -> Option<Seq<char>> {
    match records_text(tasks) {
        Some(body) => Some("["@ + body + "]"@),
        None => None,
    }
}

/// The value of the first member of `row` whose key is `key`.
pub open spec fn field(row: Seq<(Seq<char>, Seq<char>)>, key: Seq<char>) -> Option<Seq<char>>
    decreases row.len(),
{
    if row.len() == 0 {
        None
    } else if row[0].0 == key {
        Some(row[0].1)
    } else {
        field(row.skip(1), key)
    }
}

/// A record as it stands in a snapshot: the JSON texts of the four values.
pub struct RecordView {
    /// The JSON text of the name.
    pub name: Seq<char>,
    /// The JSON text of the description.
    pub description: Seq<char>,
    /// The JSON text of the priority.
    pub priority: Seq<char>,
    /// The JSON text of the creation time.
    pub add_time: Seq<char>,
}

/// The record that the members of an object hold: the values under the four
/// keys. Further members are passed over. `None` where a key is missing.
pub open spec fn members_record(members: Seq<(Seq<char>, Seq<char>)>) -> Option<RecordView> {
    if field(members, "name"@) is Some && field(members, "description"@) is Some && field(
        members,
        "priority"@,
    ) is Some && field(members, "add_time"@) is Some {
        Some(
            RecordView {
                name: field(members, "name"@)->0,
                description: field(members, "description"@)->0,
                priority: field(members, "priority"@)->0,
                add_time: field(members, "add_time"@)->0,
            },
        )
    } else {
        None
    }
}

/// The record that the elements of an array hold: name, description,
/// priority and creation time in that order. `None` unless there are exactly
/// four elements.
pub open spec fn items_record(items: Seq<Seq<char>>) -> Option<RecordView> {
    if items.len() == 4 {
        Some(
            RecordView {
                name: items[0],
                description: items[1],
                priority: items[2],
                add_time: items[3],
            },
        )
    } else {
        None
    }
}

/// The record that the JSON text `item` holds, as an object or as an array.
pub open spec fn item_record(item: Seq<char>) -> Option<RecordView> {
    match json_members(item) {
        Some(members) => members_record(members),
        None => match json_items(item) {
            Some(items) => items_record(items),
            None => None,
        },
    }
}

/// The priority that the members of an object name: the object has one
/// member, and its key is a label.
pub open spec fn variant_priority(members: Seq<(Seq<char>, Seq<char>)>) -> Option<Priority> {
    if members.len() == 1 {
        Priority::of_label(members[0].0)
    } else {
        None
    }
}

/// The priority that the JSON text `raw` holds: a string that is a label, or
/// an object whose only member has a label as its key and `null` as its value.
pub open spec fn priority_read(raw: Seq<char>) -> Option<Priority> {
    match json_string(raw) {
        Some(label) => Priority::of_label(label),
        None => match json_members(raw) {
            Some(members) => if members.len() == 1 && json_null(members[0].1) {
                variant_priority(members)
            } else {
                None
            },
            None => None,
        },
    }
}

/// A task can be read from the record: name, description and creation time
/// are strings, the priority is read, and the calendar library reads the
/// creation time.
pub open spec fn record_readable(r: RecordView) -> bool {
    &&& json_string(r.name) is Some
    &&& json_string(r.description) is Some
    &&& priority_read(r.priority) is Some
    &&& json_string(r.add_time) is Some
    &&& stamp_parsed(json_string(r.add_time)->0) is Some
}

/// `t` is a task read from the record: name, description and priority are
/// what the record holds, and the creation time is the instant that was
/// written, under some offset.
pub open spec fn record_gives(r: RecordView, t: TaskView) -> bool {
    &&& record_readable(r)
    &&& json_string(r.name) == Some(t.name)
    &&& json_string(r.description) == Some(t.description)
    &&& priority_read(r.priority) == Some(t.priority)
    &&& t.add_time.at_instant(stamp_parsed(json_string(r.add_time)->0)->0)
    &&& t.add_time.wf()
}

/// A task can be read from the JSON text `item`.
pub open spec fn item_readable(item: Seq<char>) -> bool {
    item_record(item) is Some && record_readable(item_record(item)->0)
}

/// `t` is a task read from the JSON text `item`.
pub open spec fn item_gives(item: Seq<char>, t: TaskView) -> bool {
    item_record(item) is Some && record_gives(item_record(item)->0, t)
}

/// A task can be read from every one of the JSON texts.
pub open spec fn items_readable(items: Seq<Seq<char>>) -> bool {
    forall|i: int| 0 <= i < items.len() ==> item_readable(#[trigger] items[i])
}

/// `tasks` are the tasks read from the JSON texts, in the same order.
pub open spec fn items_give(items: Seq<Seq<char>>, tasks: Seq<TaskView>) -> bool {
    &&& tasks.len() == items.len()
    &&& forall|i: int| 0 <= i < items.len() ==> item_gives(#[trigger] items[i], tasks[i])
}

/// `text` is a snapshot from which tasks can be read: an array whose
/// elements can all be read.
pub open spec fn snapshot_readable(text: Seq<char>) -> bool {
    json_items(text) is Some && items_readable(json_items(text)->0)
}

/// `tasks` are the tasks read from the snapshot `text`, in its order.
pub open spec fn snapshot_gives(text: Seq<char>, tasks: Seq<TaskView>) -> bool {
    json_items(text) is Some && items_give(json_items(text)->0, tasks)
}

/// The members of the object of one task: the four keys in key order, each
/// with the JSON text of its value.
pub open spec fn members(r: RecordView) -> Seq<(Seq<char>, Seq<char>)> {
    seq![
        ("add_time"@, r.add_time),
        ("description"@, r.description),
        ("name"@, r.name),
        ("priority"@, r.priority),
    ]
}

/// The members of an object that was written for a task hold the record that
/// was written: each of the four values is found under its key.
pub proof fn law_members_read_back(r: RecordView)
    ensures
        members_record(members(r)) == Some(r),
{
    let row = members(r);
    reveal_strlit("add_time");
    reveal_strlit("description");
    reveal_strlit("name");
    reveal_strlit("priority");
    assert("add_time"@.len() == 8 && "description"@.len() == 11 && "name"@.len() == 4
        && "priority"@.len() == 8);
    assert("add_time"@[0] == 'a' && "priority"@[0] == 'p');
    reveal_with_fuel(field, 5);
    assert(row.skip(1) == seq![
        ("description"@, r.description),
        ("name"@, r.name),
        ("priority"@, r.priority),
    ]);
}

/// A JSON text that holds the label of a priority as a string is read as
/// that priority.
pub proof fn law_label_is_read(raw: Seq<char>, p: Priority)
    ensures
        json_string(raw) == Some(p.label()) ==> priority_read(raw) == Some(p),
{
    law_label_reads_back(p, p.label());
}

/// The snapshot of no tasks is the empty array.
pub proof fn law_empty_snapshot()
    ensures
        snapshot_text(Seq::empty()) == Some("[]"@),
{
    reveal_strlit("[");
    reveal_strlit("]");
    reveal_strlit("[]");
}

/// Where the first `k` tasks cannot be written, the whole sequence cannot.
pub proof fn lemma_records_none(tasks: Seq<TaskView>, k: int)
    requires
        0 <= k <= tasks.len(),
        records_text(tasks.take(k)) is None,
    ensures
        records_text(tasks) is None,
    decreases tasks.len() - k,
{
    if k == tasks.len() {
        assert(tasks.take(k) == tasks);
    } else {
        assert(tasks.take(k + 1).drop_last() == tasks.take(k));
        lemma_records_none(tasks, k + 1);
    }
}

/// A failure to write the tasks as JSON, with `detail` after the fixed prefix.
fn write_failure(detail: &str) -> (e: StoreError)
    ensures
        e.kind == ErrorKind::SerializationError,
        e.message@ == "Failed to write to file: "@ + detail@,
        has_prefix(e.message@, "Failed to write to file: "@),
{
    StoreError::prefixed(ErrorKind::SerializationError, "Failed to write to file: ", detail)
}

/// A failure to read tasks from JSON, with `detail` after the fixed prefix.
fn read_failure(detail: &str) -> (e: StoreError)
    ensures
        e.kind == ErrorKind::DeserializationError,
        e.message@ == "err "@ + detail@,
        has_prefix(e.message@, "err "@),
{
    StoreError::prefixed(ErrorKind::DeserializationError, "err ", detail)
}

/// Frames a JSON object with the four members of a task in their fixed
/// order. The arguments are JSON string literals already.
pub fn frame_object(name: &str, description: &str, priority: &str, add_time: &str) -> (out: String)
    ensures
        out@ == object_text(name@, description@, priority@, add_time@),
{
    let mut out = "{\"name\":".to_owned();
    out.append(name);
    out.append(",\"description\":");
    out.append(description);
    out.append(",\"priority\":");
    out.append(priority);
    out.append(",\"add_time\":");
    out.append(add_time);
    out.append("}");
    out
}

/// Writes one task as a JSON object.
pub fn encode_task(task: &Task) -> (r: Result<String, StoreError>)
    ensures
        match r {
            Ok(s) => record_text(task@) == Some(s@),
            Err(e) => record_text(task@) is None && e.kind == ErrorKind::SerializationError
                && has_prefix(e.message@, "Failed to write to file: "@),
        },
{
    let iso = match task.add_time.to_iso() {
        Some(s) => s,
        None => {
            return Err(write_failure("creation time out of range"));
        },
    };
    let label = task.priority.to_string();
    // The JSON library has no failure for a string; one that it reported all
    // the same would be handed on.
    let name = match quote_json(task.name.as_str()) {
        Ok(s) => s,
        Err(detail) => {
            return Err(write_failure(detail.as_str()));
        },
    };
    let description = match quote_json(task.description.as_str()) {
        Ok(s) => s,
        Err(detail) => {
            return Err(write_failure(detail.as_str()));
        },
    };
    let priority = match quote_json(label.as_str()) {
        Ok(s) => s,
        Err(detail) => {
            return Err(write_failure(detail.as_str()));
        },
    };
    let add_time = match quote_json(iso.as_str()) {
        Ok(s) => s,
        Err(detail) => {
            return Err(write_failure(detail.as_str()));
        },
    };
    Ok(frame_object(name.as_str(), description.as_str(), priority.as_str(), add_time.as_str()))
}

/// Writes the tasks as one JSON array, in their order.
pub fn encode_tasks(tasks: &Vec<Task>) -> (r: Result<String, StoreError>)
    ensures
        match r {
            Ok(s) => snapshot_text(views(tasks@)) == Some(s@),
            Err(e) => snapshot_text(views(tasks@)) is None && e.kind
                == ErrorKind::SerializationError && has_prefix(
                e.message@,
                "Failed to write to file: "@,
            ),
        },
{
    let ghost all = views(tasks@);
    let mut out = "[".to_owned();
    let ghost mut body: Seq<char> = Seq::empty();
    let mut i: usize = 0;
    while i < tasks.len()
        invariant
            i <= tasks.len(),
            all == views(tasks@),
            records_text(all.take(i as int)) == Some(body),
            out@ == "["@ + body,
        decreases tasks.len() - i,
    {
        assert(all.take(i + 1).drop_last() == all.take(i as int));
        let record = match encode_task(&tasks[i]) {
            Ok(s) => s,
            Err(e) => {
                proof {
                    lemma_records_none(all, i + 1);
                }
                return Err(e);
            },
        };
        if i > 0 {
            out.append(",");
            proof {
                body = body + ","@ + record@;
            }
        } else {
            proof {
                body = record@;
            }
        }
        out.append(record.as_str());
        i += 1;
    }
    assert(all.take(i as int) == all);
    out.append("]");
    Ok(out)
}

/// The value of the first member of `row` whose key is `key`.
pub fn find_field<'a>(row: &'a Vec<(String, String)>, key: &str) -> (r: Option<&'a String>)
    ensures
        match r {
            Some(v) => field(row.deep_view(), key@) == Some(v@),
            None => field(row.deep_view(), key@) is None,
        },
{
    let wanted = key.to_owned();
    let mut i: usize = 0;
    assert(row.deep_view().skip(0) == row.deep_view());
    while i < row.len()
        invariant
            i <= row.len(),
            wanted@ == key@,
            field(row.deep_view(), key@) == field(row.deep_view().skip(i as int), key@),
        decreases row.len() - i,
    {
        assert(row.deep_view().skip(i as int).skip(1) == row.deep_view().skip(i + 1));
        if row[i].0 == wanted {
            return Some(&row[i].1);
        }
        i += 1;
    }
    None
}

/// A record as it stands in a snapshot: the JSON texts of the four values.
#[derive(Clone, Debug, PartialEq, Eq)]
pub struct Record {
    /// The JSON text of the name.
    pub name: String,
    /// The JSON text of the description.
    pub description: String,
    /// The JSON text of the priority.
    pub priority: String,
    /// The JSON text of the creation time.
    pub add_time: String,
}

impl View for Record {
    type V = RecordView;

    open spec fn view(&self) -> RecordView {
        RecordView {
            name: self.name@,
            description: self.description@,
            priority: self.priority@,
            add_time: self.add_time@,
        }
    }
}

/// The record that the members of an object hold. Of members with the same
/// key the first counts; members with other keys are passed over.
pub fn record_of_members(members: &Vec<(String, String)>) -> (r: Option<Record>)
    ensures
        match r {
            Some(record) => members_record(members.deep_view()) == Some(record@),
            None => members_record(members.deep_view()) is None,
        },
{
    let name = match find_field(members, "name") {
        Some(v) => v,
        None => {
            return None;
        },
    };
    let description = match find_field(members, "description") {
        Some(v) => v,
        None => {
            return None;
        },
    };
    let priority = match find_field(members, "priority") {
        Some(v) => v,
        None => {
            return None;
        },
    };
    let add_time = match find_field(members, "add_time") {
        Some(v) => v,
        None => {
            return None;
        },
    };
    Some(
        Record {
            name: name.clone(),
            description: description.clone(),
            priority: priority.clone(),
            add_time: add_time.clone(),
        },
    )
}

/// The record that the elements of an array hold: exactly four, in the order
/// name, description, priority, creation time.
pub fn record_of_items(items: &Vec<String>) -> (r: Option<Record>)
    ensures
        match r {
            Some(record) => items_record(items.deep_view()) == Some(record@),
            None => items_record(items.deep_view()) is None,
        },
{
    if items.len() == 4 {
        Some(
            Record {
                name: items[0].clone(),
                description: items[1].clone(),
                priority: items[2].clone(),
                add_time: items[3].clone(),
            },
        )
    } else {
        None
    }
}

/// The priority that the members of an object name: the object has one
/// member, and its key is a label.
pub fn priority_of_members(members: &Vec<(String, String)>) -> (r: Option<Priority>)
    ensures
        r == variant_priority(members.deep_view()),
{
    if members.len() == 1 {
        Priority::from_label(members[0].0.as_str())
    } else {
        None
    }
}

/// Reads a priority from its JSON text.
pub fn read_priority(raw: &str) -> (r: Option<Priority>)
    ensures
        r == priority_read(raw@),
{
    match read_string(raw) {
        Some(label) => Priority::from_label(label.as_str()),
        None => match split_object(raw) {
            Ok(members) => match priority_of_members(&members) {
                Some(p) => if read_null(members[0].1.as_str()) {
                    Some(p)
                } else {
                    None
                },
                None => None,
            },
            Err(_) => None,
        },
    }
}

/// Reads the record that the JSON text `item` holds, as an object or as an
/// array.
pub fn read_record(item: &str) -> (r: Option<Record>)
    ensures
        match r {
            Some(record) => item_record(item@) == Some(record@),
            None => item_record(item@) is None,
        },
{
    match split_object(item) {
        Ok(members) => record_of_members(&members),
        Err(_) => match split_array(item) {
            Ok(items) => record_of_items(&items),
            Err(_) => None,
        },
    }
}

/// Reads one task from a record. The creation time keeps its instant and is
/// shown in the local time zone.
pub fn decode_record(record: &Record) -> (r: Option<Task>)
    ensures
        r is Some <==> record_readable(record@),
        r matches Some(t) ==> record_gives(record@, t@),
{
    let name = match read_string(record.name.as_str()) {
        Some(s) => s,
        None => {
            return None;
        },
    };
    let description = match read_string(record.description.as_str()) {
        Some(s) => s,
        None => {
            return None;
        },
    };
    let priority = match read_priority(record.priority.as_str()) {
        Some(p) => p,
        None => {
            return None;
        },
    };
    let written = match read_string(record.add_time.as_str()) {
        Some(s) => s,
        None => {
            return None;
        },
    };
    let add_time = match Timestamp::parse(written.as_str()) {
        Some(t) => t.to_local(),
        None => {
            return None;
        },
    };
    Some(Task { name, description, priority, add_time })
}

/// Reads one task from the JSON text of a record.
pub fn decode_item(item: &str) -> (r: Option<Task>)
    ensures
        r is Some <==> item_readable(item@),
        r matches Some(t) ==> item_gives(item@, t@),
{
    match read_record(item) {
        Some(record) => decode_record(&record),
        None => None,
    }
}

/// Reads the tasks of a snapshot, in the order in which it holds them.
pub fn decode_tasks(text: &str) -> (r: Result<Vec<Task>, StoreError>)
    ensures
        match r {
            Ok(tasks) => snapshot_readable(text@) && snapshot_gives(text@, views(tasks@)),
            Err(e) => !snapshot_readable(text@) && e.kind == ErrorKind::DeserializationError
                && has_prefix(e.message@, "err "@),
        },
{
    let items = match split_array(text) {
        Ok(items) => items,
        Err(detail) => {
            return Err(read_failure(detail.as_str()));
        },
    };
    let mut tasks: Vec<Task> = Vec::new();
    let mut i: usize = 0;
    while i < items.len()
        invariant
            i <= items.len(),
            tasks.len() == i,
            json_items(text@) == Some(items.deep_view()),
            forall|j: int| 0 <= j < i ==> item_gives(#[trigger] items.deep_view()[j], tasks@[j]@),
        decreases items.len() - i,
    {
        assert(items.deep_view()[i as int] == items@[i as int]@);
        match decode_item(items[i].as_str()) {
            Some(task) => {
                tasks.push(task);
            },
            None => {
                assert(!item_readable(items.deep_view()[i as int]));
                return Err(read_failure("a record is not a task"));
            },
        }
        i += 1;
    }
    Ok(tasks)
}

} // verus!
