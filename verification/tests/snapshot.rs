use chrono::{DateTime, Utc};
use tasklist::error::ErrorKind;
use tasklist::priority::Priority;
use tasklist::snapshot::{
    decode_item, decode_record, decode_tasks, encode_task, encode_tasks, find_field, frame_object,
    priority_of_members, read_priority, read_record, record_of_items, record_of_members, Record,
};
use tasklist::stamp::Timestamp;
use tasklist::store::TasksManager;
use tasklist::task::Task;

fn stamped(name: &str, description: &str, priority: Priority, secs: i64, nanos: u32) -> Task {
    Task::with_time(
        name.to_string(),
        description.to_string(),
        priority,
        Timestamp::from_parts(secs, nanos, 0).unwrap().to_local(),
    )
}

fn row(members: &[(&str, &str)]) -> Vec<(String, String)> {
    members.iter().map(|(k, v)| (k.to_string(), v.to_string())).collect()
}

#[test]
fn object_has_the_four_members_in_fixed_order() {
    assert_eq!(
        frame_object("\"n\"", "\"d\"", "\"Low\"", "\"t\""),
        "{\"name\":\"n\",\"description\":\"d\",\"priority\":\"Low\",\"add_time\":\"t\"}"
    );
}

#[test]
fn task_is_written_as_one_object() {
    let t = Task::with_time(
        "Buy milk".to_string(),
        "2%".to_string(),
        Priority::Low,
        Timestamp::from_parts(1_700_000_000, 500_000_000, 3600).unwrap(),
    );
    assert_eq!(
        encode_task(&t).unwrap(),
        "{\"name\":\"Buy milk\",\"description\":\"2%\",\"priority\":\"Low\",\"add_time\":\"2023-11-14T23:13:20.500+01:00\"}"
    );
}

#[test]
fn strings_are_escaped_as_json() {
    let t = Task::with_time(
        "say \"hi\"".to_string(),
        "back\\slash\nnew\tline \u{1} é".to_string(),
        Priority::High,
        Timestamp::from_parts(0, 0, 0).unwrap(),
    );
    assert_eq!(
        encode_task(&t).unwrap(),
        "{\"name\":\"say \\\"hi\\\"\",\"description\":\"back\\\\slash\\nnew\\tline \\u0001 é\",\"priority\":\"High\",\"add_time\":\"1970-01-01T00:00:00Z\"}"
    );
}

#[test]
fn empty_store_is_an_empty_array() {
    assert_eq!(encode_tasks(&Vec::new()).unwrap(), "[]");
    assert_eq!(TasksManager::new().to_json().unwrap(), "[]");
}

#[test]
fn tasks_are_separated_by_commas() {
    let a = Task::with_time("a".into(), "1".into(), Priority::Low, Timestamp::from_parts(0, 0, 0).unwrap());
    let b = Task::with_time("b".into(), "2".into(), Priority::Medium, Timestamp::from_parts(1, 0, 0).unwrap());
    let c = Task::with_time("c".into(), "3".into(), Priority::High, Timestamp::from_parts(2, 0, 0).unwrap());
    let one = encode_tasks(&vec![a.clone()]).unwrap();
    assert_eq!(one, format!("[{}]", encode_task(&a).unwrap()));
    let three = encode_tasks(&vec![a.clone(), b.clone(), c.clone()]).unwrap();
    assert_eq!(
        three,
        format!("[{},{},{}]", encode_task(&a).unwrap(), encode_task(&b).unwrap(), encode_task(&c).unwrap())
    );
}

#[test]
fn snapshot_is_valid_json_with_the_documented_keys() {
    let a = Task::with_time("a".into(), "1".into(), Priority::Low, Timestamp::from_parts(0, 0, 0).unwrap());
    let text = encode_tasks(&vec![a]).unwrap();
    let value: serde_json::Value = serde_json::from_str(&text).unwrap();
    let items = value.as_array().unwrap();
    assert_eq!(items.len(), 1);
    let object = items[0].as_object().unwrap();
    assert_eq!(object.len(), 4);
    assert_eq!(object["name"], "a");
    assert_eq!(object["description"], "1");
    assert_eq!(object["priority"], "Low");
    assert_eq!(object["add_time"], "1970-01-01T00:00:00Z");
}

#[test]
fn a_creation_time_that_cannot_be_written_is_a_serialization_error() {
    let last = DateTime::<Utc>::MAX_UTC;
    let t = Task::with_time(
        "late".to_string(),
        String::new(),
        Priority::Low,
        Timestamp::from_parts(last.timestamp(), 0, 3600).unwrap(),
    );
    let err = encode_task(&t).unwrap_err();
    assert_eq!(err.kind, ErrorKind::SerializationError);
    assert_eq!(err.message, "Failed to write to file: creation time out of range");
    let ok = Task::with_time("a".into(), "1".into(), Priority::Low, Timestamp::from_parts(0, 0, 0).unwrap());
    let err = encode_tasks(&vec![ok.clone(), t.clone()]).unwrap_err();
    assert_eq!(err.kind, ErrorKind::SerializationError);
    let mut store = TasksManager::new();
    store.add_task(ok);
    store.add_task(t);
    assert_eq!(store.to_json().unwrap_err().kind, ErrorKind::SerializationError);
    assert_eq!(store.store_to_file("f", false).unwrap_err().kind, ErrorKind::SerializationError);
    assert_eq!(store.store_to_file("f", true).unwrap_err().kind, ErrorKind::FileAlreadyExists);
}

#[test]
fn field_is_the_value_of_the_first_member_with_the_key() {
    let r = row(&[("a", "1"), ("b", "2"), ("a", "3")]);
    assert_eq!(find_field(&r, "a"), Some(&"1".to_string()));
    assert_eq!(find_field(&r, "b"), Some(&"2".to_string()));
    assert_eq!(find_field(&r, "c"), None);
    assert_eq!(find_field(&Vec::new(), "a"), None);
}

fn record(name: &str, description: &str, priority: &str, add_time: &str) -> Record {
    Record {
        name: name.to_string(),
        description: description.to_string(),
        priority: priority.to_string(),
        add_time: add_time.to_string(),
    }
}

#[test]
fn members_with_the_four_keys_hold_a_record() {
    let r = row(&[
        ("add_time", "\"2023-11-14T22:13:20Z\""),
        ("description", "\"2%\""),
        ("extra", "[1, 2]"),
        ("name", "\"Buy milk\""),
        ("priority", "\"Medium\""),
    ]);
    assert_eq!(
        record_of_members(&r),
        Some(record("\"Buy milk\"", "\"2%\"", "\"Medium\"", "\"2023-11-14T22:13:20Z\""))
    );
}

#[test]
fn members_without_one_of_the_keys_hold_no_record() {
    let full = [("add_time", "1"), ("description", "2"), ("name", "3"), ("priority", "4")];
    assert_eq!(record_of_members(&row(&full)), Some(record("3", "2", "4", "1")));
    for skip in 0..4 {
        let members: Vec<(&str, &str)> =
            full.iter().enumerate().filter(|(i, _)| *i != skip).map(|(_, m)| *m).collect();
        assert_eq!(record_of_members(&row(&members)), None);
    }
    assert_eq!(record_of_members(&Vec::new()), None);
    assert_eq!(record_of_members(&row(&[("Name", "3"), ("add_time", "1"), ("description", "2"), ("priority", "4")])), None);
}

#[test]
fn four_elements_hold_a_record_in_their_order() {
    let items: Vec<String> = ["n", "d", "p", "t"].iter().map(|s| s.to_string()).collect();
    assert_eq!(record_of_items(&items), Some(record("n", "d", "p", "t")));
    assert_eq!(record_of_items(&items[..3].to_vec()), None);
    let mut five = items.clone();
    five.push("x".to_string());
    assert_eq!(record_of_items(&five), None);
    assert_eq!(record_of_items(&Vec::new()), None);
}

#[test]
fn one_member_with_a_label_as_key_names_a_priority() {
    assert_eq!(priority_of_members(&row(&[("High", "null")])), Some(Priority::High));
    assert_eq!(priority_of_members(&row(&[("Low", "anything")])), Some(Priority::Low));
    assert_eq!(priority_of_members(&row(&[("high", "null")])), None);
    assert_eq!(priority_of_members(&row(&[("High", "null"), ("Low", "null")])), None);
    assert_eq!(priority_of_members(&Vec::new()), None);
}

#[test]
fn priority_is_read_from_a_string_or_from_an_object_with_null() {
    assert_eq!(read_priority("\"Low\""), Some(Priority::Low));
    assert_eq!(read_priority(" \"High\" "), Some(Priority::High));
    assert_eq!(read_priority("\"\\u004cow\""), Some(Priority::Low));
    assert_eq!(read_priority("{\"Medium\": null}"), Some(Priority::Medium));
    assert_eq!(read_priority("{\"Medium\": 1}"), None);
    assert_eq!(read_priority("{\"Medium\": null, \"Low\": null}"), None);
    assert_eq!(read_priority("{}"), None);
    assert_eq!(read_priority("\"low\""), None);
    assert_eq!(read_priority("\"Urgent\""), None);
    assert_eq!(read_priority("{\"Urgent\": null}"), None);
    assert_eq!(read_priority("Low"), None);
    assert_eq!(read_priority("2"), None);
    assert_eq!(read_priority("null"), None);
    assert_eq!(read_priority("[\"Low\"]"), None);
    assert_eq!(read_priority(""), None);
}

#[test]
fn record_is_read_from_an_object_or_an_array() {
    let object = "{\"name\": \"a\", \"priority\": \"Low\", \"add_time\":\"t\", \"description\": [1, 2], \"more\": {\"x\": null}}";
    assert_eq!(read_record(object), Some(record("\"a\"", "[1, 2]", "\"Low\"", "\"t\"")));
    let array = "[ \"a\", 2, {\"Low\": null}, null ]";
    assert_eq!(read_record(array), Some(record("\"a\"", "2", "{\"Low\": null}", "null")));
    assert_eq!(read_record("[1, 2, 3]"), None);
    assert_eq!(read_record("[1, 2, 3, 4, 5]"), None);
    assert_eq!(read_record("{\"name\": \"a\"}"), None);
    assert_eq!(read_record("\"a\""), None);
    assert_eq!(read_record("7"), None);
    assert_eq!(read_record("{"), None);
    assert_eq!(read_record(""), None);
}

#[test]
fn task_is_read_from_a_record() {
    let r = record("\"Buy milk\"", "\"2%\"", "\"Medium\"", "\"2023-11-14T22:13:20Z\"");
    let t = decode_record(&r).unwrap();
    assert_eq!(t.name, "Buy milk");
    assert_eq!(t.description, "2%");
    assert_eq!(t.priority, Priority::Medium);
    assert_eq!(t.add_time.secs(), 1_700_000_000);
    assert_eq!(t.add_time.nanos(), 0);
    assert_eq!(t.add_time, Timestamp::from_parts(1_700_000_000, 0, 0).unwrap().to_local());
    let escaped = record("\"a\\n\\\"b\\\"\"", "\"\"", "{\"High\":null}", "\"1970-01-01T00:00:00Z\"");
    let t = decode_record(&escaped).unwrap();
    assert_eq!(t.name, "a\n\"b\"");
    assert_eq!(t.description, "");
    assert_eq!(t.priority, Priority::High);
}

#[test]
fn record_with_a_value_of_the_wrong_kind_gives_no_task() {
    let good = ["\"n\"", "\"d\"", "\"Low\"", "\"1970-01-01T00:00:00Z\""];
    assert!(decode_record(&record(good[0], good[1], good[2], good[3])).is_some());
    for bad in ["1", "null", "[\"n\"]", "{\"n\":null}", "n", ""] {
        assert_eq!(decode_record(&record(bad, good[1], good[2], good[3])), None);
        assert_eq!(decode_record(&record(good[0], bad, good[2], good[3])), None);
        assert_eq!(decode_record(&record(good[0], good[1], bad, good[3])), None);
        assert_eq!(decode_record(&record(good[0], good[1], good[2], bad)), None);
    }
    assert_eq!(decode_record(&record(good[0], good[1], "\"low\"", good[3])), None);
    assert_eq!(decode_record(&record(good[0], good[1], good[2], "\"yesterday\"")), None);
}

#[test]
fn item_is_read_as_an_object_or_as_an_array() {
    let object = "{\"name\":\"a\",\"description\":\"d\",\"priority\":\"High\",\"add_time\":\"1970-01-01T00:00:07Z\"}";
    let array = "[\"a\", \"d\", \"High\", \"1970-01-01T00:00:07Z\"]";
    let expected = stamped("a", "d", Priority::High, 7, 0);
    assert_eq!(decode_item(object), Some(expected.clone()));
    assert_eq!(decode_item(array), Some(expected));
    assert_eq!(decode_item("[\"a\", \"d\", \"High\"]"), None);
    assert_eq!(decode_item("[\"a\", \"d\", \"High\", \"1970-01-01T00:00:07Z\", 1]"), None);
    assert_eq!(decode_item("\"a\""), None);
}

#[test]
fn snapshot_is_read_in_its_order() {
    let text = "[
        {\"name\": \"b\", \"description\": \"2\", \"priority\": \"High\", \"add_time\": \"2023-11-14T22:13:20.5+02:00\"},
        {\"priority\": \"Low\", \"add_time\": \"1970-01-01T00:00:00Z\", \"name\": \"a\", \"description\": \"\"}
    ]";
    let tasks = decode_tasks(text).unwrap();
    assert_eq!(tasks.len(), 2);
    assert_eq!(tasks[0].name, "b");
    assert_eq!(tasks[0].description, "2");
    assert_eq!(tasks[0].priority, Priority::High);
    assert_eq!(tasks[0].add_time.secs(), 1_700_000_000 - 7200);
    assert_eq!(tasks[0].add_time.nanos(), 500_000_000);
    assert_eq!(tasks[1].name, "a");
    assert_eq!(tasks[1].description, "");
    assert_eq!(tasks[1].priority, Priority::Low);
    assert_eq!(tasks[1].add_time.secs(), 0);
    assert_eq!(decode_tasks("[]").unwrap(), Vec::new());
    assert_eq!(decode_tasks(" [ ] ").unwrap(), Vec::new());
}

#[test]
fn further_members_of_any_kind_are_passed_over() {
    let text = "[{\"id\": 7, \"name\": \"a\", \"tags\": [\"x\", {\"y\": null}], \"description\": \"d\", \"done\": false, \"priority\": \"Low\", \"add_time\": \"1970-01-01T00:00:03Z\", \"note\": \"text\"}]";
    assert_eq!(decode_tasks(text).unwrap(), vec![stamped("a", "d", Priority::Low, 3, 0)]);
}

#[test]
fn records_may_be_arrays_and_priorities_objects() {
    let text = "[[\"a\", \"d\", \"Medium\", \"1970-01-01T00:00:03Z\"], {\"name\": \"b\", \"description\": \"\", \"priority\": {\"High\": null}, \"add_time\": \"1970-01-01T00:00:04Z\"}, [\"c\", \"\", {\"Low\": null}, \"1970-01-01T00:00:05Z\"]]";
    assert_eq!(
        decode_tasks(text).unwrap(),
        vec![
            stamped("a", "d", Priority::Medium, 3, 0),
            stamped("b", "", Priority::High, 4, 0),
            stamped("c", "", Priority::Low, 5, 0),
        ]
    );
}

#[test]
fn of_members_with_one_key_the_last_is_read() {
    let text = "[{\"name\": \"first\", \"name\": \"last\", \"description\": \"\", \"priority\": \"Low\", \"add_time\": \"1970-01-01T00:00:03Z\"}]";
    assert_eq!(decode_tasks(text).unwrap(), vec![stamped("last", "", Priority::Low, 3, 0)]);
}

#[test]
fn what_is_no_snapshot_is_a_deserialization_error() {
    for text in [
        "",
        "not json",
        "{}",
        "[1, 2]",
        "[{\"name\": \"a\"}]",
        "[{\"name\": \"a\", \"description\": \"\", \"priority\": \"Urgent\", \"add_time\": \"1970-01-01T00:00:00Z\"}]",
        "[{\"name\": \"a\", \"description\": \"\", \"priority\": \"low\", \"add_time\": \"1970-01-01T00:00:00Z\"}]",
        "[{\"name\": \"a\", \"description\": \"\", \"priority\": {\"Low\": 0}, \"add_time\": \"1970-01-01T00:00:00Z\"}]",
        "[{\"name\": \"a\", \"description\": \"\", \"priority\": \"Low\", \"add_time\": \"soon\"}]",
        "[{\"name\": \"a\", \"description\": \"\", \"priority\": \"Low\", \"add_time\": 0}]",
        "[{\"name\": 1, \"description\": \"\", \"priority\": \"Low\", \"add_time\": \"1970-01-01T00:00:00Z\"}]",
        "[{\"name\": \"a\", \"description\": null, \"priority\": \"Low\", \"add_time\": \"1970-01-01T00:00:00Z\"}]",
        "[{\"name\": \"a\", \"description\": \"\", \"priority\": \"Low\", \"add_time\": \"1970-01-01T00:00:00Z\"}] x",
        "[{\"name\": \"a\", \"description\": \"\", \"priority\": \"Low\", \"add_time\": \"1970-01-01T00:00:00Z\"},]",
        "[{\"name\": \"a\", \"description\": \"\", \"priority\": \"Low\", \"add_time\": \"1970-01-01T00:00:00Z\", \"x\": }]",
        "[[\"a\", \"\", \"Low\"]]",
        "[[\"a\", \"\", \"Low\", \"1970-01-01T00:00:00Z\", \"more\"]]",
        "[\"a\"]",
    ] {
        let err = decode_tasks(text).unwrap_err();
        assert_eq!(err.kind, ErrorKind::DeserializationError);
        assert!(err.message.starts_with("err "));
        assert!(err.message.len() > 4);
    }
}

#[test]
fn load_replaces_and_does_not_merge() {
    let mut store = TasksManager::new();
    store.add_task(stamped("old 1", "", Priority::Low, 1, 0));
    store.add_task(stamped("old 2", "", Priority::Low, 2, 0));
    let text = "[{\"name\":\"new\",\"description\":\"d\",\"priority\":\"High\",\"add_time\":\"1970-01-01T00:00:09Z\"}]";
    assert_eq!(store.load_json(text), Ok("Data stored Successfully".to_string()));
    assert_eq!(store.len(), 1);
    assert_eq!(*store.get(0).unwrap(), stamped("new", "d", Priority::High, 9, 0));
    assert_eq!(store.load_json("[]"), Ok("Data stored Successfully".to_string()));
    assert_eq!(store.len(), 0);
}

#[test]
fn failed_load_keeps_the_tasks() {
    let mut store = TasksManager::new();
    store.add_task(stamped("old 1", "", Priority::Low, 1, 0));
    let before = store.render_all();
    let err = store.load_json("[{\"name\":\"new\"}]").unwrap_err();
    assert_eq!(err.kind, ErrorKind::DeserializationError);
    assert_eq!(store.len(), 1);
    assert_eq!(store.render_all(), before);
}

#[test]
fn save_then_load_gives_equal_tasks_in_the_same_order() {
    let mut store = TasksManager::new();
    store.add_task(Task::new("Buy milk".to_string(), "2%".to_string(), Priority::Low));
    store.add_task(stamped("say \"hi\"", "back\\slash\nline", Priority::Medium, 1_700_000_000, 123_456_789));
    store.add_task(stamped("", "", Priority::High, -1, 999_999_999));
    store.add_task(Task::new("Buy milk".to_string(), "again".to_string(), Priority::High));
    let text = store.to_json().unwrap();
    let mut loaded = TasksManager::new();
    assert_eq!(loaded.load_json(&text), Ok("Data stored Successfully".to_string()));
    assert_eq!(loaded.len(), store.len());
    for i in 0..store.len() {
        let was = store.get(i).unwrap();
        let is = loaded.get(i).unwrap();
        assert_eq!(is.name, was.name);
        assert_eq!(is.description, was.description);
        assert_eq!(is.priority, was.priority);
        assert_eq!(is.add_time, was.add_time);
        assert_eq!(is, was);
    }
    assert_eq!(loaded.render_all(), store.render_all());
    assert_eq!(loaded.to_json().unwrap(), text);
}

#[test]
fn load_keeps_the_instant_of_a_time_written_in_another_zone() {
    let written = Task::with_time(
        "far".to_string(),
        String::new(),
        Priority::Low,
        Timestamp::from_parts(1_700_000_000, 0, 9 * 3600).unwrap(),
    );
    let text = encode_tasks(&vec![written.clone()]).unwrap();
    let read = decode_tasks(&text).unwrap();
    assert_eq!(read.len(), 1);
    assert_eq!(read[0].add_time.secs(), 1_700_000_000);
    assert_eq!(read[0].add_time.nanos(), 0);
    assert_eq!(read[0].add_time, written.add_time.to_local());
}
