use task_store::codec::encode_task;
use task_store::error::{Error, ErrorKind};
use task_store::gateway::{
    add_task, add_time_segment, delete_time_segment, list_tasks, list_tasks_per_time_segment,
    list_time_segments, remove_task, resume, start_add_task, update_task, update_time_segment,
    Outcome, Pending, Progress,
};
use task_store::model::{Duration, NewTask, NewTimeSegment, Task, TimeSegment, Timestamp};
use task_store::store::{StoreFailure, StoreRequest};
use task_store::wire::WireValue;

fn duplicate_value(w: &WireValue) -> WireValue {
    match w {
        WireValue::Null => WireValue::Null,
        WireValue::Bool(b) => WireValue::Bool(*b),
        WireValue::Integer(n) => WireValue::Integer(*n),
        WireValue::Decimal(s) => WireValue::Decimal(s.clone()),
        WireValue::Text(s) => WireValue::Text(s.clone()),
        WireValue::List(ws) => WireValue::List(ws.iter().map(duplicate_value).collect()),
        WireValue::Object(fs) => WireValue::Object(fs.iter().map(|(k, v)| (k.clone(), duplicate_value(v))).collect()),
    }
}

struct Doc {
    id: u32,
    kind: &'static str,
    body: WireValue,
    rev: u32,
}

/// A document store in memory, with revisions, for driving the gateway.
#[derive(Default)]
struct MemoryStore {
    docs: Vec<Doc>,
    writes: usize,
}

impl MemoryStore {
    fn stored(d: &Doc) -> WireValue {
        let mut fs: Vec<(String, WireValue)> = match &d.body {
            WireValue::Object(fs) => fs.iter().filter(|(k, _)| k != "id").map(|(k, v)| (k.clone(), duplicate_value(v))).collect(),
            _ => Vec::new(),
        };
        fs.push(("_id".to_string(), WireValue::Text(d.id.to_string())));
        fs.push(("_rev".to_string(), WireValue::Text(format!("{}-x", d.rev))));
        WireValue::Object(fs)
    }

    fn of_kind(&self, kind: &str) -> Vec<&Doc> {
        self.docs.iter().filter(|d| d.kind == kind).collect()
    }

    fn segment_of(d: &Doc) -> Option<i64> {
        match &d.body {
            WireValue::Object(fs) => fs.iter().find(|(k, _)| k == "time_segment_id").and_then(|(_, v)| match v {
                WireValue::Integer(n) => Some(*n),
                _ => None,
            }),
            _ => None,
        }
    }

    fn answer(&mut self, request: StoreRequest) -> Result<WireValue, StoreFailure> {
        match request {
            StoreRequest::Get { id } => match self.docs.iter().find(|d| d.id == id) {
                Some(d) => Ok(Self::stored(d)),
                None => Err(StoreFailure::NotFound("missing".to_string())),
            },
            StoreRequest::Create { id, kind, document } => {
                if self.docs.iter().any(|d| d.id == id) {
                    return Err(StoreFailure::Failed("Document update conflict".to_string()));
                }
                self.writes += 1;
                self.docs.push(Doc { id, kind: kind.tag(), body: document, rev: 1 });
                Ok(WireValue::Null)
            },
            StoreRequest::Update { id, revision, kind, document } => {
                let d = match self.docs.iter_mut().find(|d| d.id == id) {
                    Some(d) => d,
                    None => return Err(StoreFailure::NotFound("missing".to_string())),
                };
                if format!("{}-x", d.rev) != revision || d.kind != kind.tag() {
                    return Err(StoreFailure::Failed("Document update conflict".to_string()));
                }
                d.body = document;
                d.rev += 1;
                self.writes += 1;
                Ok(WireValue::Null)
            },
            StoreRequest::Delete { id, revision } => {
                let at = match self.docs.iter().position(|d| d.id == id) {
                    Some(at) => at,
                    None => return Err(StoreFailure::NotFound("missing".to_string())),
                };
                if format!("{}-x", self.docs[at].rev) != revision {
                    return Err(StoreFailure::Failed("Document update conflict".to_string()));
                }
                self.docs.remove(at);
                self.writes += 1;
                Ok(WireValue::Null)
            },
            StoreRequest::TasksForTimeSegment { time_segment_id } => Ok(WireValue::List(
                self.of_kind("task")
                    .into_iter()
                    .filter(|d| Self::segment_of(d) == Some(time_segment_id as i64))
                    .map(Self::stored)
                    .collect(),
            )),
            StoreRequest::AllTasks => Ok(WireValue::List(self.of_kind("task").into_iter().map(Self::stored).collect())),
            StoreRequest::AllTimeSegments => {
                Ok(WireValue::List(self.of_kind("time-segment").into_iter().map(Self::stored).collect()))
            },
            StoreRequest::AllTasksPerTimeSegment => Ok(WireValue::List(
                self.of_kind("time-segment")
                    .into_iter()
                    .map(|s| {
                        let tasks = self
                            .of_kind("task")
                            .into_iter()
                            .filter(|d| Self::segment_of(d) == Some(s.id as i64))
                            .map(Self::stored)
                            .collect();
                        WireValue::List(vec![Self::stored(s), WireValue::List(tasks)])
                    })
                    .collect(),
            )),
        }
    }

    fn run(&mut self, mut progress: Progress) -> Result<Outcome, Error> {
        loop {
            match progress {
                Progress::Ask(pending, request) => {
                    let reply = self.answer(request);
                    progress = resume(pending, reply);
                },
                Progress::Finished(result) => return result,
            }
        }
    }
}

const T: Timestamp = Timestamp { secs: 1_714_564_800, nanos: 0 };

fn new_segment(name: &str) -> NewTimeSegment {
    NewTimeSegment { name: name.to_string(), ranges: Vec::new(), start: T, period: Duration::seconds(86_400) }
}

fn segments(store: &mut MemoryStore) -> Vec<TimeSegment> {
    match store.run(list_time_segments()) {
        Ok(Outcome::TimeSegments(ss)) => ss,
        other => panic!("unexpected {:?}", other),
    }
}

fn segment_named(store: &mut MemoryStore, name: &str) -> TimeSegment {
    segments(store).into_iter().find(|s| s.name == name).expect("segment exists")
}

fn buy_milk(segment: u32) -> NewTask {
    NewTask {
        content: "Buy milk".to_string(),
        deadline: T,
        duration: Duration::minutes(30),
        importance: 5,
        time_segment_id: segment,
    }
}

fn refusal_reason(r: Result<Outcome, Error>) -> String {
    match r {
        Err(Error { kind: ErrorKind::Invariant, cause: reason, .. }) => reason,
        other => panic!("expected an Invariant error, got {:?}", other),
    }
}

#[test]
fn last_segment_cannot_be_deleted_until_another_exists() {
    let mut store = MemoryStore::default();
    assert!(matches!(store.run(add_time_segment(&new_segment("Work"))), Ok(Outcome::Done)));
    let work = segment_named(&mut store, "Work");
    let reason = refusal_reason(store.run(delete_time_segment(&work)));
    assert_eq!(reason, "If you remove the last time segment, when should I schedule things?");
    assert_eq!(segments(&mut store).len(), 1);

    assert!(matches!(store.run(add_time_segment(&new_segment("Home"))), Ok(Outcome::Done)));
    assert!(matches!(store.run(delete_time_segment(&work)), Ok(Outcome::Done)));
    let left = segments(&mut store);
    assert_eq!(left.len(), 1);
    assert_eq!(left[0].name, "Home");
}

#[test]
fn added_task_keeps_its_fields_and_encodes_thirty_minutes_as_1800() {
    let mut store = MemoryStore::default();
    store.run(add_time_segment(&new_segment("A"))).unwrap();
    let a = segment_named(&mut store, "A");
    let task = match store.run(add_task(buy_milk(a.id))) {
        Ok(Outcome::Task(t)) => t,
        other => panic!("unexpected {:?}", other),
    };
    assert_eq!(task.content, "Buy milk");
    assert_eq!(task.deadline, T);
    assert_eq!(task.importance, 5);
    assert_eq!(task.time_segment_id, a.id);
    assert_ne!(task.id, a.id);
    match encode_task(&task).unwrap() {
        WireValue::Object(fs) => {
            assert!(fs.iter().any(|(k, v)| k == "duration" && *v == WireValue::Integer(1800)));
        },
        other => panic!("not an object: {:?}", other),
    }
    match store.run(list_tasks()) {
        Ok(Outcome::Tasks(ts)) => assert_eq!(ts, vec![task]),
        other => panic!("unexpected {:?}", other),
    }
}

#[test]
fn add_task_with_unknown_segment_fails_without_writing() {
    let mut store = MemoryStore::default();
    store.run(add_time_segment(&new_segment("A"))).unwrap();
    let writes = store.writes;
    let a = segment_named(&mut store, "A");
    let missing = a.id.wrapping_add(1);
    match store.run(add_task(buy_milk(missing))) {
        Err(Error { kind: ErrorKind::Database, context, .. }) => {
            assert_eq!(context, "while searching for the time segment of the new task")
        },
        other => panic!("unexpected {:?}", other),
    }
    assert_eq!(store.writes, writes);
}

#[test]
fn task_document_is_not_accepted_as_a_time_segment() {
    let mut store = MemoryStore::default();
    store.run(add_time_segment(&new_segment("A"))).unwrap();
    let a = segment_named(&mut store, "A");
    let task = match store.run(add_task(buy_milk(a.id))).unwrap() {
        Outcome::Task(t) => t,
        other => panic!("unexpected {:?}", other),
    };
    let writes = store.writes;
    match store.run(add_task(buy_milk(task.id))) {
        Err(Error { kind: ErrorKind::Database, context, cause }) => {
            assert_eq!(context, "while searching for the time segment of the new task");
            assert_eq!(cause, "the document under this identifier is not a time segment");
        },
        other => panic!("unexpected {:?}", other),
    }
    let moved = Task { time_segment_id: task.id, ..task.clone() };
    assert!(matches!(store.run(update_task(moved)), Err(Error { kind: ErrorKind::Database, .. })));
    assert_eq!(store.writes, writes);
    match store.run(list_tasks()).unwrap() {
        Outcome::Tasks(ts) => assert_eq!(ts, vec![task]),
        other => panic!("unexpected {:?}", other),
    }
}

#[test]
fn add_task_under_an_identifier_in_use_fails() {
    let mut store = MemoryStore::default();
    store.run(add_time_segment(&new_segment("A"))).unwrap();
    let a = segment_named(&mut store, "A");
    let result = store.run(start_add_task(buy_milk(a.id), a.id));
    assert!(matches!(result, Err(Error { kind: ErrorKind::Database, .. })));
}

#[test]
fn segment_with_one_task_is_not_deleted() {
    let mut store = MemoryStore::default();
    store.run(add_time_segment(&new_segment("A"))).unwrap();
    store.run(add_time_segment(&new_segment("B"))).unwrap();
    let a = segment_named(&mut store, "A");
    store.run(add_task(buy_milk(a.id))).unwrap();
    let reason = refusal_reason(store.run(delete_time_segment(&a)));
    assert_eq!(
        reason,
        "There is still a task in this time segment. Please delete them or move them to another segment before deleting this segment."
    );
    assert_eq!(segments(&mut store).len(), 2);
}

#[test]
fn segment_with_three_tasks_gives_the_count() {
    let mut store = MemoryStore::default();
    store.run(add_time_segment(&new_segment("A"))).unwrap();
    store.run(add_time_segment(&new_segment("B"))).unwrap();
    let a = segment_named(&mut store, "A");
    for id in 1..=3u32 {
        let result = store.run(start_add_task(buy_milk(a.id), a.id.wrapping_add(id)));
        assert!(result.is_ok());
    }
    let r = store.run(delete_time_segment(&a));
    match &r {
        Err(e) => assert!(e.to_message().starts_with("The operation was refused while deleting a time segment. (There are still 3 tasks in this time segment.")),
        Ok(_) => panic!("deleted"),
    }
    let reason = refusal_reason(r);
    assert_eq!(
        reason,
        "There are still 3 tasks in this time segment. Please delete them or move them to another segment before deleting this segment."
    );
}

#[test]
fn task_is_updated_at_its_revision_and_removed() {
    let mut store = MemoryStore::default();
    store.run(add_time_segment(&new_segment("A"))).unwrap();
    store.run(add_time_segment(&new_segment("B"))).unwrap();
    let a = segment_named(&mut store, "A");
    let b = segment_named(&mut store, "B");
    let task = match store.run(add_task(buy_milk(a.id))).unwrap() {
        Outcome::Task(t) => t,
        other => panic!("unexpected {:?}", other),
    };
    let moved = Task { time_segment_id: b.id, importance: 9, ..task.clone() };
    assert!(matches!(store.run(update_task(moved.clone())), Ok(Outcome::Done)));
    match store.run(list_tasks()).unwrap() {
        Outcome::Tasks(ts) => assert_eq!(ts, vec![moved.clone()]),
        other => panic!("unexpected {:?}", other),
    }
    let unused = (0u32..).find(|x| *x != a.id && *x != b.id && *x != moved.id).unwrap();
    let dangling = Task { time_segment_id: unused, ..moved.clone() };
    let writes = store.writes;
    assert!(matches!(store.run(update_task(dangling)), Err(Error { kind: ErrorKind::Database, .. })));
    assert_eq!(store.writes, writes);
    assert!(matches!(store.run(remove_task(moved.id)), Ok(Outcome::Done)));
    assert!(matches!(store.run(remove_task(moved.id)), Err(Error { kind: ErrorKind::Database, .. })));
    assert!(matches!(store.run(delete_time_segment(&a)), Ok(Outcome::Done)));
}

#[test]
fn stale_revision_is_refused_by_the_store() {
    let mut store = MemoryStore::default();
    store.run(add_time_segment(&new_segment("A"))).unwrap();
    let a = segment_named(&mut store, "A");
    let renamed = TimeSegment { name: "Office".to_string(), ..a.clone() };
    let first = update_time_segment(renamed.clone());
    let (pending, request) = match first {
        Progress::Ask(p, r) => (p, r),
        other => panic!("unexpected {:?}", other),
    };
    let read = store.answer(request);
    let next = resume(pending, read);
    let (pending, write) = match next {
        Progress::Ask(p @ Pending::UpdateTimeSegmentWrite, r) => (p, r),
        other => panic!("unexpected {:?}", other),
    };
    // Another update lands between the read and the write.
    store.run(update_time_segment(TimeSegment { name: "Desk".to_string(), ..a.clone() })).unwrap();
    let reply = store.answer(write);
    match resume(pending, reply) {
        Progress::Finished(Err(Error { kind: ErrorKind::Database, context, cause })) => {
            assert_eq!(context, "while updating a time segment");
            assert_eq!(cause, "Document update conflict");
        },
        other => panic!("unexpected {:?}", other),
    }
    assert_eq!(segment_named(&mut store, "Desk").id, a.id);
}

#[test]
fn tasks_are_listed_per_time_segment() {
    let mut store = MemoryStore::default();
    store.run(add_time_segment(&new_segment("A"))).unwrap();
    store.run(add_time_segment(&new_segment("B"))).unwrap();
    let a = segment_named(&mut store, "A");
    store.run(add_task(buy_milk(a.id))).unwrap();
    match store.run(list_tasks_per_time_segment()).unwrap() {
        Outcome::Groups(gs) => {
            assert_eq!(gs.len(), 2);
            for (s, ts) in gs {
                if s.id == a.id {
                    assert_eq!(ts.len(), 1);
                } else {
                    assert!(ts.is_empty());
                }
            }
        },
        other => panic!("unexpected {:?}", other),
    }
}

#[test]
fn store_failure_while_listing_names_the_operation() {
    let progress = list_tasks();
    let pending = match progress {
        Progress::Ask(p, _) => p,
        other => panic!("unexpected {:?}", other),
    };
    match resume(pending, Err(StoreFailure::Failed("offline".to_string()))) {
        Progress::Finished(Err(e)) => {
            assert_eq!(e.to_message(), "A database error occurred while loading all tasks. (offline.)")
        },
        other => panic!("unexpected {:?}", other),
    }
}

#[test]
fn listing_with_a_bad_task_names_the_listing() {
    let pending = match list_tasks() {
        Progress::Ask(p, _) => p,
        other => panic!("unexpected {:?}", other),
    };
    let bad = WireValue::List(vec![WireValue::Object(vec![("_id".to_string(), WireValue::Text("x".to_string()))])]);
    match resume(pending, Ok(bad)) {
        Progress::Finished(Err(e)) => {
            assert_eq!(e.kind, ErrorKind::Serialisation);
            assert_eq!(e.context, "while deserialising tasks");
        },
        other => panic!("unexpected {:?}", other),
    }
}

#[test]
fn malformed_listing_is_a_serialisation_error() {
    let pending = match list_time_segments() {
        Progress::Ask(p, _) => p,
        other => panic!("unexpected {:?}", other),
    };
    assert!(matches!(
        resume(pending, Ok(WireValue::Text("nope".to_string()))),
        Progress::Finished(Err(Error { kind: ErrorKind::Serialisation, .. }))
    ));
}
