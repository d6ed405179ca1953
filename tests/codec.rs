use task_store::codec::{decode_new_task, decode_task, encode_new_task, encode_task};
use task_store::error::{Error, ErrorKind};
use task_store::list_codec::{decode_tasks, encode_schedule, read_revision};
use task_store::model::{DateRange, Duration, NewTask, NewTimeSegment, Schedule, ScheduledTask, Task, TimeSegment, Timestamp};
use task_store::segment_codec::{decode_time_segment, encode_new_time_segment, encode_time_segment};
use task_store::wire::WireValue;

const NOON_MAY_FIRST: i64 = 1_714_564_800;

fn text(s: &str) -> WireValue {
    WireValue::Text(s.to_string())
}

fn object(members: Vec<(&str, WireValue)>) -> WireValue {
    WireValue::Object(members.into_iter().map(|(k, v)| (k.to_string(), v)).collect())
}

fn members(w: &WireValue) -> &Vec<(String, WireValue)> {
    match w {
        WireValue::Object(fs) => fs,
        other => panic!("not an object: {:?}", other),
    }
}

fn member<'a>(w: &'a WireValue, key: &str) -> &'a WireValue {
    &members(w).iter().find(|(k, _)| k == key).expect("member present").1
}

fn sample_task() -> Task {
    Task {
        id: 17,
        content: "Buy milk".to_string(),
        deadline: Timestamp { secs: NOON_MAY_FIRST, nanos: 0 },
        duration: Duration::minutes(30),
        importance: 5,
        time_segment_id: 3,
    }
}

#[test]
fn task_round_trips_through_the_codec() {
    let t = sample_task();
    let w = encode_task(&t).unwrap();
    assert_eq!(decode_task(&w).unwrap(), t);
}

#[test]
fn task_document_has_the_expected_members() {
    let w = encode_task(&sample_task()).unwrap();
    let keys: Vec<&str> = members(&w).iter().map(|(k, _)| k.as_str()).collect();
    assert_eq!(keys, vec!["id", "content", "deadline", "duration", "importance", "time_segment_id"]);
    assert_eq!(member(&w, "id"), &WireValue::Integer(17));
    assert_eq!(member(&w, "deadline"), &text("2024-05-01T12:00:00Z"));
    assert_eq!(member(&w, "duration"), &WireValue::Integer(1800));
}

#[test]
fn duration_is_truncated_to_whole_seconds() {
    let mut t = sample_task();
    t.duration = Duration { secs: 90, nanos: 999_999_999 };
    let w = encode_task(&t).unwrap();
    assert_eq!(member(&w, "duration"), &WireValue::Integer(90));
    assert_eq!(decode_task(&w).unwrap().duration, Duration::seconds(90));
}

#[test]
fn fractional_instants_are_written_with_their_digits() {
    let mut t = sample_task();
    t.deadline = Timestamp { secs: NOON_MAY_FIRST, nanos: 500_000_000 };
    let w = encode_task(&t).unwrap();
    assert_eq!(member(&w, "deadline"), &text("2024-05-01T12:00:00.500Z"));
    assert_eq!(decode_task(&w).unwrap(), t);
}

#[test]
fn identifier_may_be_a_number_or_a_numeral() {
    let with = |id: WireValue, key: &str| {
        object(vec![
            (key, id),
            ("content", text("Buy milk")),
            ("deadline", text("2024-05-01T12:00:00Z")),
            ("duration", WireValue::Integer(1800)),
            ("importance", WireValue::Integer(5)),
            ("time_segment_id", WireValue::Integer(3)),
        ])
    };
    let from_number = decode_task(&with(WireValue::Integer(17), "id")).unwrap();
    let from_text = decode_task(&with(text("17"), "id")).unwrap();
    let from_store = decode_task(&with(text("17"), "_id")).unwrap();
    assert_eq!(from_number, sample_task());
    assert_eq!(from_text, sample_task());
    assert_eq!(from_store, sample_task());
}

#[test]
fn bad_identifier_is_a_serialisation_error() {
    let doc = object(vec![
        ("id", text("seventeen")),
        ("content", text("Buy milk")),
        ("deadline", text("2024-05-01T12:00:00Z")),
        ("duration", WireValue::Integer(1800)),
        ("importance", WireValue::Integer(5)),
        ("time_segment_id", WireValue::Integer(3)),
    ]);
    assert!(matches!(decode_task(&doc), Err(Error { kind: ErrorKind::Serialisation, .. })));
    let too_big = object(vec![("id", text("4294967296"))]);
    assert!(matches!(decode_task(&too_big), Err(Error { kind: ErrorKind::Serialisation, .. })));
}

#[test]
fn deadline_with_an_offset_is_read_in_utc() {
    let doc = object(vec![
        ("content", text("Buy milk")),
        ("deadline", text("2024-05-01T14:00:00+02:00")),
        ("duration", WireValue::Integer(1800)),
        ("importance", WireValue::Integer(5)),
        ("time_segment_id", WireValue::Integer(3)),
    ]);
    assert_eq!(decode_new_task(&doc).unwrap().deadline, Timestamp { secs: NOON_MAY_FIRST, nanos: 0 });
}

#[test]
fn new_task_ignores_an_identifier() {
    let doc = object(vec![
        ("id", WireValue::Integer(99)),
        ("content", text("Buy milk")),
        ("deadline", text("2024-05-01T12:00:00Z")),
        ("duration", WireValue::Integer(1800)),
        ("importance", WireValue::Integer(5)),
        ("time_segment_id", WireValue::Integer(3)),
        ("colour", text("blue")),
    ]);
    let t = decode_new_task(&doc).unwrap();
    assert_eq!(t.content, "Buy milk");
    assert_eq!(t.duration, Duration::seconds(1800));
    let w = encode_new_task(&t).unwrap();
    assert!(members(&w).iter().all(|(k, _)| k != "id"));
}

#[test]
fn missing_or_ill_typed_members_are_serialisation_errors() {
    let missing = object(vec![("content", text("Buy milk"))]);
    assert!(matches!(decode_new_task(&missing), Err(Error { kind: ErrorKind::Serialisation, .. })));
    let negative = object(vec![
        ("content", text("Buy milk")),
        ("deadline", text("2024-05-01T12:00:00Z")),
        ("duration", WireValue::Integer(-1)),
        ("importance", WireValue::Integer(5)),
        ("time_segment_id", WireValue::Integer(3)),
    ]);
    assert!(matches!(decode_new_task(&negative), Err(Error { kind: ErrorKind::Serialisation, .. })));
    let bad_date = object(vec![
        ("content", text("Buy milk")),
        ("deadline", text("tomorrow")),
        ("duration", WireValue::Integer(60)),
        ("importance", WireValue::Integer(5)),
        ("time_segment_id", WireValue::Integer(3)),
    ]);
    assert!(matches!(decode_new_task(&bad_date), Err(Error { kind: ErrorKind::Serialisation, .. })));
    assert!(matches!(decode_task(&WireValue::Null), Err(Error { kind: ErrorKind::Serialisation, .. })));
}

#[test]
fn instants_at_the_range_limit_are_written_and_read_back() {
    for secs in [task_store::time::TIMESTAMP_LIMIT_SECS, -task_store::time::TIMESTAMP_LIMIT_SECS, 0] {
        let mut t = sample_task();
        t.deadline = Timestamp { secs, nanos: 999_999_999 };
        let w = encode_task(&t).expect("instant within range");
        assert_eq!(decode_task(&w).unwrap(), t);
    }
}

#[test]
fn instant_outside_chrono_range_cannot_be_written() {
    let mut t = sample_task();
    t.deadline = Timestamp { secs: i64::MAX, nanos: 0 };
    assert!(matches!(encode_task(&t), Err(Error { kind: ErrorKind::Serialisation, .. })));
}

#[test]
fn schedule_keeps_its_order() {
    let first = sample_task();
    let mut second = sample_task();
    second.id = 18;
    let schedule = Schedule {
        tasks: vec![
            ScheduledTask { task: second.clone(), when: Timestamp { secs: NOON_MAY_FIRST + 60, nanos: 0 } },
            ScheduledTask { task: first.clone(), when: Timestamp { secs: NOON_MAY_FIRST, nanos: 0 } },
            ScheduledTask { task: second.clone(), when: Timestamp { secs: NOON_MAY_FIRST + 60, nanos: 0 } },
        ],
    };
    let w = encode_schedule(&schedule).unwrap();
    let items = match &w {
        WireValue::List(items) => items,
        other => panic!("not a list: {:?}", other),
    };
    assert_eq!(items.len(), 3);
    assert_eq!(member(member(&items[0], "task"), "id"), &WireValue::Integer(18));
    assert_eq!(member(member(&items[1], "task"), "id"), &WireValue::Integer(17));
    assert_eq!(member(&items[0], "when"), &text("2024-05-01T12:01:00Z"));
    assert_eq!(member(&items[1], "when"), &text("2024-05-01T12:00:00Z"));
}

#[test]
fn list_of_tasks_is_read_in_order() {
    let a = encode_task(&sample_task()).unwrap();
    let mut other = sample_task();
    other.id = 4;
    let b = encode_task(&other).unwrap();
    let tasks = decode_tasks(&WireValue::List(vec![b, a])).unwrap();
    assert_eq!(tasks.iter().map(|t| t.id).collect::<Vec<_>>(), vec![4, 17]);
    assert!(matches!(decode_tasks(&WireValue::Integer(1)), Err(Error { kind: ErrorKind::Serialisation, .. })));
}

#[test]
fn time_segment_round_trips_through_the_codec() {
    let s = TimeSegment {
        id: 9,
        name: "Work".to_string(),
        ranges: vec![DateRange {
            start: Timestamp { secs: NOON_MAY_FIRST, nanos: 0 },
            end: Timestamp { secs: NOON_MAY_FIRST + 3600, nanos: 0 },
        }],
        start: Timestamp { secs: NOON_MAY_FIRST, nanos: 0 },
        period: Duration::seconds(7 * 24 * 3600),
    };
    let w = encode_time_segment(&s).unwrap();
    assert_eq!(member(&w, "period"), &WireValue::Integer(604800));
    assert_eq!(decode_time_segment(&w).unwrap(), s);
    let n = NewTimeSegment { name: s.name.clone(), ranges: s.ranges.clone(), start: s.start, period: s.period };
    let nw = encode_new_time_segment(&n).unwrap();
    assert!(members(&nw).iter().all(|(k, _)| k != "id"));
}

#[test]
fn host_milliseconds_become_an_instant() {
    assert_eq!(Timestamp::from_unix_millis(1500), Timestamp { secs: 1, nanos: 500_000_000 });
    assert_eq!(Timestamp::from_unix_millis(-1), Timestamp { secs: -1, nanos: 999_000_000 });
    assert_eq!(Timestamp::from_unix_millis(-1000), Timestamp { secs: -1, nanos: 0 });
}

#[test]
fn bad_item_in_a_list_fails_the_whole_list() {
    let good = encode_task(&sample_task()).unwrap();
    let err = decode_tasks(&WireValue::List(vec![good, WireValue::Null])).unwrap_err();
    assert_eq!(err.kind, ErrorKind::Serialisation);
    assert_eq!(err.context, "while deserialising tasks");
    assert!(err.cause.contains("while deserialising a task"));
}

#[test]
fn revision_is_read_from_the_document() {
    let doc = object(vec![("_id", text("3")), ("_rev", text("2-abc"))]);
    assert_eq!(read_revision(&doc), Some("2-abc".to_string()));
    assert_eq!(read_revision(&object(vec![("_id", text("3"))])), None);
}
