//! The codec between entities and wire values.
//!
//! Instants are RFC 3339 text, durations are whole seconds (a duration is
//! truncated toward zero when written), identifiers are read from a number or
//! from a string of digits, and a creation request never carries an identifier:
//! one found in a request document is ignored.
use vstd::prelude::*;
use crate::error::{Error, ErrorKind};
use crate::model::{Duration, NewTask, Task, Timestamp, task_from_new};
use crate::text::{decimal_text, lemma_parse_decimal};
use crate::time::{format_rfc3339, parse_rfc3339, rfc3339_reading, rfc3339_text, timestamp_in_range};
use crate::wire::{WireValue, field, field_of, lemma_field_of_first, id_of, read_id, read_text, read_u32, text_of, u32_of};

verus! {

/// The instant that a string value holds.
pub open spec fn timestamp_of(w: WireValue) -> Option<Timestamp> {
    match w {
        WireValue::Text(s) => match rfc3339_reading(s@) {
            Some(p) => Some(Timestamp { secs: p.0, nanos: p.1 }),
            None => None,
        },
        _ => None,
    }
}

/// The duration that a count of seconds stands for.
pub open spec fn duration_of(w: WireValue) -> Option<Duration> {
    match u32_of(w) {
        Some(n) => Some(Duration { secs: n, nanos: 0 }),
        None => None,
    }
}

/// Whether `w` is the text chrono writes for `t`.
pub open spec fn is_timestamp_text(w: WireValue, t: Timestamp) -> bool {
    w matches WireValue::Text(s) && rfc3339_text(t.secs, t.nanos) == Some(s@)
}

/// Whether `w` holds the whole seconds of `d`.
pub open spec fn is_duration_value(w: WireValue, d: Duration) -> bool {
    w == WireValue::Integer(d.secs as i64)
}

/// The identifier of a document, under `id` or, failing that, `_id`.
pub open spec fn document_id(fs: Seq<(String, WireValue)>) -> Option<u32> {
    match field_of(fs, "id"@) {
        Some(v) => id_of(v),
        None => match field_of(fs, "_id"@) {
            Some(v) => id_of(v),
            None => None,
        },
    }
}

/// Whether each member that a task has besides its identifier can be read.
pub open spec fn new_task_readable(fs: Seq<(String, WireValue)>) -> bool {
    &&& field_of(fs, "content"@) matches Some(c) && text_of(c) is Some
    &&& field_of(fs, "deadline"@) matches Some(d) && timestamp_of(d) is Some
    &&& field_of(fs, "duration"@) matches Some(u) && duration_of(u) is Some
    &&& field_of(fs, "importance"@) matches Some(i) && u32_of(i) is Some
    &&& field_of(fs, "time_segment_id"@) matches Some(g) && u32_of(g) is Some
}

/// The creation request that the members `fs` describe; members with other
/// keys, an identifier among them, are ignored.
pub open spec fn new_task_from_fields(fs: Seq<(String, WireValue)>) -> Option<NewTask> {
    if new_task_readable(fs) {
        Some(NewTask {
            content: text_of(field_of(fs, "content"@)->0)->0,
            deadline: timestamp_of(field_of(fs, "deadline"@)->0)->0,
            duration: duration_of(field_of(fs, "duration"@)->0)->0,
            importance: u32_of(field_of(fs, "importance"@)->0)->0,
            time_segment_id: u32_of(field_of(fs, "time_segment_id"@)->0)->0,
        })
    } else {
        None
    }
}

/// The creation request that a document describes.
pub open spec fn new_task_of(w: WireValue) -> Option<NewTask> {
    match w {
        WireValue::Object(fs) => new_task_from_fields(fs@),
        _ => None,
    }
}

/// The task that the members `fs` describe.
pub open spec fn task_from_fields(fs: Seq<(String, WireValue)>) -> Option<Task> {
    match (document_id(fs), new_task_from_fields(fs)) {
        (Some(id), Some(t)) => Some(task_from_new(id, t)),
        _ => None,
    }
}

/// The task that a document describes.
pub open spec fn task_of(w: WireValue) -> Option<Task> {
    match w {
        WireValue::Object(fs) => task_from_fields(fs@),
        _ => None,
    }
}

/// Whether `fs` are the members that the codec writes for `t`, in order:
/// `content`, `deadline`, `duration`, `importance`, `time_segment_id`.
pub open spec fn new_task_members(fs: Seq<(String, WireValue)>, t: NewTask) -> bool {
    &&& fs.len() == 5
    &&& fs[0].0@ == "content"@ && fs[0].1 == WireValue::Text(t.content)
    &&& fs[1].0@ == "deadline"@ && is_timestamp_text(fs[1].1, t.deadline)
    &&& fs[2].0@ == "duration"@ && is_duration_value(fs[2].1, t.duration)
    &&& fs[3].0@ == "importance"@ && fs[3].1 == WireValue::Integer(t.importance as i64)
    &&& fs[4].0@ == "time_segment_id"@ && fs[4].1 == WireValue::Integer(t.time_segment_id as i64)
}

/// The creation request part of a task.
pub open spec fn request_of(t: Task) -> NewTask {
    NewTask {
        content: t.content,
        deadline: t.deadline,
        duration: t.duration,
        importance: t.importance,
        time_segment_id: t.time_segment_id,
    }
}

/// Whether `w` is the document that the codec writes for the request `t`.
pub open spec fn is_new_task_document(w: WireValue, t: NewTask) -> bool {
    w matches WireValue::Object(fs) && new_task_members(fs@, t)
}

/// Whether `w` is the document that the codec writes for the task `t`: its
/// identifier under `id`, then the members of the request part.
pub open spec fn is_task_document(w: WireValue, t: Task) -> bool {
    &&& w matches WireValue::Object(fs)
    &&& fs@.len() == 6
    &&& fs@[0].0@ == "id"@
    &&& fs@[0].1 == WireValue::Integer(t.id as i64)
    &&& new_task_members(fs@.drop_first(), request_of(t))
}

/// Whether chrono can write every instant of the request `t`.
pub open spec fn new_task_writable(t: NewTask) -> bool {
    rfc3339_text(t.deadline.secs, t.deadline.nanos) is Some
}

/// Reads an instant from its RFC 3339 text.
pub fn read_timestamp(w: &WireValue) -> (r: Option<Timestamp>)
    ensures
        r == timestamp_of(*w),
{
    match w {
        WireValue::Text(s) => match parse_rfc3339(s.as_str()) {
            Some(p) => Some(Timestamp { secs: p.0, nanos: p.1 }),
            None => None,
        },
        _ => None,
    }
}

/// Writes an instant as RFC 3339 text.
pub fn write_timestamp(t: Timestamp) -> (r: Option<WireValue>)
    ensures
        r is Some <==> rfc3339_text(t.secs, t.nanos) is Some,
        r matches Some(w) ==> is_timestamp_text(w, t),
        timestamp_in_range(t) ==> r is Some,
{
    match format_rfc3339(t) {
        Some(s) => Some(WireValue::Text(s)),
        None => None,
    }
}

/// Reads a duration from a whole number of seconds.
pub fn read_duration(w: &WireValue) -> (r: Option<Duration>)
    ensures
        r == duration_of(*w),
{
    match read_u32(w) {
        Some(n) => Some(Duration { secs: n, nanos: 0 }),
        None => None,
    }
}

/// Writes a duration as its whole seconds, dropping any fraction of a second.
pub fn write_duration(d: Duration) -> (r: WireValue)
    ensures
        is_duration_value(r, d),
{
    WireValue::Integer(d.whole_seconds() as i64)
}

/// The Serialisation error for a member that is missing or cannot be read.
fn member_error(context: &str, key: &str) -> (r: Error)
    ensures
        r.kind == ErrorKind::Serialisation,
        r.context@ == context@,
{
    let mut cause = String::from_str("the member `");
    cause.append(key);
    cause.append("` is missing or has the wrong type");
    Error::serialisation(context, cause)
}

/// The Serialisation error for a value that is not an object.
fn shape_error(context: &str, expected: &str) -> (r: Error)
    ensures
        r.kind == ErrorKind::Serialisation,
        r.context@ == context@,
{
    let mut cause = String::from_str("expected ");
    cause.append(expected);
    Error::serialisation(context, cause)
}

/// Reads the members of a task other than its identifier.
fn read_new_task_members(fs: &Vec<(String, WireValue)>, context: &str) -> (r: Result<NewTask, Error>)
    ensures
        r is Ok <==> new_task_from_fields(fs@) is Some,
        r matches Ok(t) ==> new_task_from_fields(fs@) == Some(t),
        r matches Err(e) ==> e.kind == ErrorKind::Serialisation,
        r matches Err(e) ==> e.context@ == context@,
{
    let content = match field(fs, "content") {
        Some(v) => match read_text(v) {
            Some(s) => s,
            None => return Err(member_error(context, "content")),
        },
        None => return Err(member_error(context, "content")),
    };
    let deadline = match field(fs, "deadline") {
        Some(v) => match read_timestamp(v) {
            Some(t) => t,
            None => return Err(member_error(context, "deadline")),
        },
        None => return Err(member_error(context, "deadline")),
    };
    let duration = match field(fs, "duration") {
        Some(v) => match read_duration(v) {
            Some(d) => d,
            None => return Err(member_error(context, "duration")),
        },
        None => return Err(member_error(context, "duration")),
    };
    let importance = match field(fs, "importance") {
        Some(v) => match read_u32(v) {
            Some(n) => n,
            None => return Err(member_error(context, "importance")),
        },
        None => return Err(member_error(context, "importance")),
    };
    let time_segment_id = match field(fs, "time_segment_id") {
        Some(v) => match read_u32(v) {
            Some(n) => n,
            None => return Err(member_error(context, "time_segment_id")),
        },
        None => return Err(member_error(context, "time_segment_id")),
    };
    Ok(NewTask { content, deadline, duration, importance, time_segment_id })
}

/// Reads the identifier of a document, under `id` or, failing that, `_id`.
pub fn read_document_id(fs: &Vec<(String, WireValue)>) -> (r: Option<u32>)
    ensures
        r == document_id(fs@),
{
    match field(fs, "id") {
        Some(v) => read_id(v),
        None => match field(fs, "_id") {
            Some(v) => read_id(v),
            None => None,
        },
    }
}

/// Decodes a creation request for a task; an identifier in it is ignored.
pub fn decode_new_task(w: &WireValue) -> (r: Result<NewTask, Error>)
    ensures
        r is Ok <==> new_task_of(*w) is Some,
        r matches Ok(t) ==> new_task_of(*w) == Some(t),
        r matches Err(e) ==> e.kind == ErrorKind::Serialisation,
        r matches Err(e) ==> e.context@ == "while deserialising a new task"@,
{
    match w {
        WireValue::Object(fs) => read_new_task_members(fs, "while deserialising a new task"),
        _ => Err(shape_error("while deserialising a new task", "an object")),
    }
}

/// Decodes a task.
pub fn decode_task(w: &WireValue) -> (r: Result<Task, Error>)
    ensures
        r is Ok <==> task_of(*w) is Some,
        r matches Ok(t) ==> task_of(*w) == Some(t),
        r matches Err(e) ==> e.kind == ErrorKind::Serialisation,
        r matches Err(e) ==> e.context@ == "while deserialising a task"@,
{
    match w {
        WireValue::Object(fs) => {
            let id = match read_document_id(fs) {
                Some(id) => id,
                None => return Err(member_error("while deserialising a task", "id")),
            };
            let t = read_new_task_members(fs, "while deserialising a task")?;
            Ok(Task::from_new(id, t))
        },
        _ => Err(shape_error("while deserialising a task", "an object")),
    }
}

/// The members of the request part of a task, in the order the codec writes them.
fn write_new_task_members(
    fs: &mut Vec<(String, WireValue)>,
    t: &NewTask,
    context: &str,
) -> (r: Result<(), Error>)
    ensures
        r is Ok <==> new_task_writable(*t),
        timestamp_in_range(t.deadline) ==> r is Ok,
        r is Ok ==> new_task_members(final(fs)@.subrange(old(fs)@.len() as int, final(fs)@.len() as int), *t),
        r is Ok ==> final(fs)@.len() == old(fs)@.len() + 5,
        r is Ok ==> final(fs)@.subrange(0, old(fs)@.len() as int) == old(fs)@,
        r matches Err(e) ==> e.kind == ErrorKind::Serialisation,
{
    let deadline = match write_timestamp(t.deadline) {
        Some(w) => w,
        None => return Err(shape_error(context, "a deadline within chrono's range of dates")),
    };
    let ghost start = fs@.len();
    fs.push((String::from_str("content"), WireValue::Text(t.content.clone())));
    fs.push((String::from_str("deadline"), deadline));
    fs.push((String::from_str("duration"), write_duration(t.duration)));
    fs.push((String::from_str("importance"), WireValue::Integer(t.importance as i64)));
    fs.push((String::from_str("time_segment_id"), WireValue::Integer(t.time_segment_id as i64)));
    assert(fs@.subrange(0, start as int) =~= old(fs)@);
    Ok(())
}

/// Encodes a creation request for a task.
pub fn encode_new_task(t: &NewTask) -> (r: Result<WireValue, Error>)
    ensures
        r is Ok <==> new_task_writable(*t),
        timestamp_in_range(t.deadline) ==> r is Ok,
        r matches Ok(w) ==> is_new_task_document(w, *t),
        r matches Err(e) ==> e.kind == ErrorKind::Serialisation,
{
    let mut fs: Vec<(String, WireValue)> = Vec::new();
    match write_new_task_members(&mut fs, t, "while serialising a new task") {
        Ok(()) => {},
        Err(e) => return Err(e),
    }
    assert(fs@.subrange(0, fs@.len() as int) =~= fs@);
    Ok(WireValue::Object(fs))
}

/// Encodes a task: its identifier under `id`, then the members of a request.
pub fn encode_task(t: &Task) -> (r: Result<WireValue, Error>)
    ensures
        r is Ok <==> new_task_writable(request_of(*t)),
        timestamp_in_range(t.deadline) ==> r is Ok,
        r matches Ok(w) ==> is_task_document(w, *t),
        r matches Err(e) ==> e.kind == ErrorKind::Serialisation,
{
    let mut fs: Vec<(String, WireValue)> = Vec::new();
    fs.push((String::from_str("id"), WireValue::Integer(t.id as i64)));
    let request = NewTask {
        content: t.content.clone(),
        deadline: t.deadline,
        duration: t.duration,
        importance: t.importance,
        time_segment_id: t.time_segment_id,
    };
    match write_new_task_members(&mut fs, &request, "while serialising a task") {
        Ok(()) => {},
        Err(e) => return Err(e),
    }
    assert(fs@.subrange(1, fs@.len() as int) =~= fs@.drop_first());
    assert(fs@[0] == fs@.subrange(0, 1)[0]);
    assert(request == request_of(*t));
    Ok(WireValue::Object(fs))
}

/// Whether chrono reads back, as the same instant, the text it writes for `t`.
pub open spec fn timestamp_round_trips(t: Timestamp) -> bool {
    rfc3339_text(t.secs, t.nanos) matches Some(s) && rfc3339_reading(s) == Some((t.secs, t.nanos))
}

/// Two keys that differ at one position are different keys.
pub(crate) proof fn lemma_keys_differ(a: Seq<char>, b: Seq<char>, i: int)
    requires
        0 <= i < a.len(),
        i < b.len(),
        a[i] != b[i],
    ensures
        a != b,
{
}

/// The members of a request part, written in order, are read back as that request.
proof fn lemma_new_task_members_read(fs: Seq<(String, WireValue)>, t: NewTask)
    requires
        new_task_members(fs, t),
        timestamp_round_trips(t.deadline),
        t.duration.is_whole(),
    ensures
        new_task_from_fields(fs) == Some(t),
{
    reveal_strlit("content");
    reveal_strlit("deadline");
    reveal_strlit("duration");
    reveal_strlit("importance");
    reveal_strlit("time_segment_id");
    lemma_keys_differ("content"@, "deadline"@, 0);
    lemma_keys_differ("content"@, "duration"@, 0);
    lemma_keys_differ("content"@, "importance"@, 0);
    lemma_keys_differ("content"@, "time_segment_id"@, 0);
    lemma_keys_differ("deadline"@, "duration"@, 1);
    lemma_keys_differ("deadline"@, "importance"@, 0);
    lemma_keys_differ("deadline"@, "time_segment_id"@, 0);
    lemma_keys_differ("duration"@, "importance"@, 0);
    lemma_keys_differ("duration"@, "time_segment_id"@, 0);
    lemma_keys_differ("importance"@, "time_segment_id"@, 0);
    lemma_field_of_first(fs, "content"@, 0);
    lemma_field_of_first(fs, "deadline"@, 1);
    lemma_field_of_first(fs, "duration"@, 2);
    lemma_field_of_first(fs, "importance"@, 3);
    lemma_field_of_first(fs, "time_segment_id"@, 4);
}

/// Members whose first key is not one of a request's keys read as the request
/// that the rest of the members describe.
proof fn lemma_new_task_skip_first(fs: Seq<(String, WireValue)>)
    requires
        fs.len() > 0,
        fs[0].0@ == "id"@,
    ensures
        new_task_from_fields(fs) == new_task_from_fields(fs.drop_first()),
{
    reveal_strlit("id");
    reveal_strlit("content");
    reveal_strlit("deadline");
    reveal_strlit("duration");
    reveal_strlit("importance");
    reveal_strlit("time_segment_id");
    lemma_keys_differ("id"@, "content"@, 0);
    lemma_keys_differ("id"@, "deadline"@, 0);
    lemma_keys_differ("id"@, "duration"@, 0);
    lemma_keys_differ("id"@, "importance"@, 1);
    lemma_keys_differ("id"@, "time_segment_id"@, 0);
}

/// Round trip of a task through the codec: the document written for a task reads
/// back as that same task, where the duration is a whole number of seconds and
/// chrono reads back the text it wrote for the deadline. The identifier reads
/// back the same when the number is replaced by its decimal text, the form in
/// which the store writes identifiers.
pub proof fn law_task_round_trip(t: Task, w: WireValue, id_text: String)
    requires
        is_task_document(w, t),
        timestamp_round_trips(t.deadline),
        t.duration.is_whole(),
        id_text@ == decimal_text(t.id as nat),
    ensures
        task_of(w) == Some(t),
        w matches WireValue::Object(fs)
            && task_from_fields(fs@.update(0, (fs@[0].0, WireValue::Text(id_text)))) == Some(t),
{
    let fs = w->Object_0@;
    let gs = fs.update(0, (fs[0].0, WireValue::Text(id_text)));
    assert(gs.drop_first() =~= fs.drop_first());
    lemma_new_task_members_read(fs.drop_first(), request_of(t));
    lemma_new_task_skip_first(fs);
    lemma_new_task_skip_first(gs);
    lemma_field_of_first(fs, "id"@, 0);
    lemma_field_of_first(gs, "id"@, 0);
    lemma_parse_decimal(t.id);
    assert(task_from_new(t.id, request_of(t)) == t);
}

/// A creation request reads the same with or without an identifier in front of
/// its members: the identifier is ignored, not refused.
pub proof fn law_new_task_ignores_id(fs: Seq<(String, WireValue)>, key: String, id: WireValue)
    requires
        key@ == "id"@,
    ensures
        new_task_from_fields(seq![(key, id)] + fs) == new_task_from_fields(fs),
{
    let gs = seq![(key, id)] + fs;
    assert(gs.drop_first() =~= fs);
    lemma_new_task_skip_first(gs);
}

} // verus!
