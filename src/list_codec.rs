//! The codec for lists of entities, grouped lists, schedules and the store's
//! revision tokens.
use vstd::prelude::*;
use crate::codec::{
    decode_task, encode_task, is_task_document, is_timestamp_text, new_task_writable, request_of,
    task_of, write_timestamp,
};
use crate::error::{Error, ErrorKind};
use crate::model::{Schedule, ScheduledTask, Task, TimeSegment};
use crate::segment_codec::{
    decode_time_segment, encode_time_segment, is_time_segment_document, segment_writable,
    time_segment_read_as, time_segment_readable,
};
use crate::time::rfc3339_text;
use crate::wire::{WireValue, field, field_of, read_text, text_of};

verus! {

/// Whether `w` is a list of documents that all read as tasks.
pub open spec fn tasks_readable(w: WireValue) -> bool {
    w matches WireValue::List(ws) && forall|i: int| 0 <= i < ws@.len() ==> (#[trigger] task_of(ws@[i])) is Some
}

/// Whether `w` is a list of documents that reads as the tasks `ts`, in order.
pub open spec fn tasks_read_as(w: WireValue, ts: Seq<Task>) -> bool {
    &&& w matches WireValue::List(ws)
    &&& ts.len() == ws@.len()
    &&& forall|i: int| 0 <= i < ws@.len() ==> #[trigger] task_of(ws@[i]) == Some(ts[i])
}

/// Whether `w` is a list of documents that all read as time segments.
pub open spec fn segments_readable(w: WireValue) -> bool {
    match w {
        WireValue::List(ws) => forall|i: int| 0 <= i < ws@.len() ==> #[trigger] time_segment_readable(ws@[i]),
        _ => false,
    }
}

/// Whether `w` is a list of documents that reads as the time segments `ss`, in order.
pub open spec fn segments_read_as(w: WireValue, ss: Seq<TimeSegment>) -> bool {
    &&& w matches WireValue::List(ws)
    &&& ss.len() == ws@.len()
    &&& forall|i: int| 0 <= i < ws@.len() ==> time_segment_read_as(#[trigger] ws@[i], ss[i])
}

/// Whether `p` is a pair `[segment, [task, ...]]` that can be read.
pub open spec fn group_readable(p: WireValue) -> bool {
    &&& p matches WireValue::List(pair)
    &&& pair@.len() == 2
    &&& time_segment_readable(pair@[0])
    &&& tasks_readable(pair@[1])
}

/// Whether the pair `p` reads as the time segment `s` with the tasks `ts`.
pub open spec fn group_read_as(p: WireValue, s: TimeSegment, ts: Seq<Task>) -> bool {
    &&& p matches WireValue::List(pair)
    &&& pair@.len() == 2
    &&& time_segment_read_as(pair@[0], s)
    &&& tasks_read_as(pair@[1], ts)
}

/// Whether `w` is a list of pairs that can all be read.
pub open spec fn groups_readable(w: WireValue) -> bool {
    match w {
        WireValue::List(ps) => forall|i: int| 0 <= i < ps@.len() ==> #[trigger] group_readable(ps@[i]),
        _ => false,
    }
}

/// Whether `w` is a list of pairs that reads as `gs`, in order.
pub open spec fn groups_read_as(w: WireValue, gs: Seq<(TimeSegment, Vec<Task>)>) -> bool {
    &&& w matches WireValue::List(ps)
    &&& gs.len() == ps@.len()
    &&& forall|i: int| 0 <= i < ps@.len() ==> group_read_as(#[trigger] ps@[i], gs[i].0, gs[i].1@)
}

/// Whether chrono can write every instant of every task in `ts`.
pub open spec fn tasks_writable(ts: Seq<Task>) -> bool {
    forall|i: int| 0 <= i < ts.len() ==> new_task_writable(request_of(#[trigger] ts[i]))
}

/// Whether `w` is the list of documents that the codec writes for `ts`, in order.
pub open spec fn is_tasks_document(w: WireValue, ts: Seq<Task>) -> bool {
    &&& w matches WireValue::List(ws)
    &&& ws@.len() == ts.len()
    &&& forall|i: int| 0 <= i < ts.len() ==> is_task_document(#[trigger] ws@[i], ts[i])
}

/// Whether chrono can write every instant of every time segment in `ss`.
pub open spec fn segments_writable(ss: Seq<TimeSegment>) -> bool {
    forall|i: int| 0 <= i < ss.len() ==> segment_writable((#[trigger] ss[i]).ranges@, ss[i].start)
}

/// Whether `w` is the list of documents that the codec writes for `ss`, in order.
pub open spec fn is_segments_document(w: WireValue, ss: Seq<TimeSegment>) -> bool {
    &&& w matches WireValue::List(ws)
    &&& ws@.len() == ss.len()
    &&& forall|i: int| 0 <= i < ss.len() ==> is_time_segment_document(#[trigger] ws@[i], ss[i])
}

/// Whether chrono can write the instants of a scheduled task.
pub open spec fn scheduled_writable(s: ScheduledTask) -> bool {
    new_task_writable(request_of(s.task)) && rfc3339_text(s.when.secs, s.when.nanos) is Some
}

/// Whether `w` is the document `{task, when}` that the codec writes for `s`.
pub open spec fn is_scheduled_document(w: WireValue, s: ScheduledTask) -> bool {
    &&& w matches WireValue::Object(fs)
    &&& fs@.len() == 2
    &&& fs@[0].0@ == "task"@ && is_task_document(fs@[0].1, s.task)
    &&& fs@[1].0@ == "when"@ && is_timestamp_text(fs@[1].1, s.when)
}

/// Whether `w` is the list that the codec writes for a schedule: one document
/// per scheduled task, in the schedule's order, none added or dropped.
pub open spec fn is_schedule_document(w: WireValue, s: Seq<ScheduledTask>) -> bool {
    &&& w matches WireValue::List(ws)
    &&& ws@.len() == s.len()
    &&& forall|i: int| 0 <= i < s.len() ==> is_scheduled_document(#[trigger] ws@[i], s[i])
}

/// The revision token of a stored document, under `_rev`.
pub open spec fn revision_of(w: WireValue) -> Option<String> {
    match w {
        WireValue::Object(fs) => match field_of(fs@, "_rev"@) {
            Some(v) => text_of(v),
            None => None,
        },
        _ => None,
    }
}

/// The number of items of a list.
pub open spec fn list_len(w: WireValue) -> Option<nat> {
    match w {
        WireValue::List(ws) => Some(ws@.len()),
        _ => None,
    }
}

fn list_error(context: &str) -> (r: Error)
    ensures
        r.kind == ErrorKind::Serialisation,
        r.context@ == context@,
{
    Error::serialisation(context, String::from_str("expected a list"))
}

/// Decodes a list of tasks, keeping their order.
pub fn decode_tasks(w: &WireValue) -> (r: Result<Vec<Task>, Error>)
    ensures
        r is Ok <==> tasks_readable(*w),
        r matches Ok(ts) ==> tasks_read_as(*w, ts@),
        r matches Err(e) ==> e.kind == ErrorKind::Serialisation,
        r matches Err(e) ==> e.context@ == "while deserialising tasks"@,
{
    match w {
        WireValue::List(ws) => {
            let mut ts: Vec<Task> = Vec::new();
            let mut i: usize = 0;
            while i < ws.len()
                invariant
                    *w == WireValue::List(*ws),
                    i <= ws@.len(),
                    ts@.len() == i,
                    forall|j: int| 0 <= j < i ==> #[trigger] task_of(ws@[j]) == Some(ts@[j]),
                decreases ws.len() - i,
            {
                match decode_task(&ws[i]) {
                    Ok(t) => ts.push(t),
                    Err(e) => {
                        assert(task_of(ws@[i as int]) is None);
                        return Err(Error::serialisation("while deserialising tasks", e.to_message()));
                    },
                }
                i = i + 1;
            }
            Ok(ts)
        },
        _ => Err(list_error("while deserialising tasks")),
    }
}

/// Decodes a list of time segments, keeping their order.
pub fn decode_time_segments(w: &WireValue) -> (r: Result<Vec<TimeSegment>, Error>)
    ensures
        r is Ok <==> segments_readable(*w),
        r matches Ok(ss) ==> segments_read_as(*w, ss@),
        r matches Err(e) ==> e.kind == ErrorKind::Serialisation,
        r matches Err(e) ==> e.context@ == "while deserialising time segments"@,
{
    match w {
        WireValue::List(ws) => {
            let mut ss: Vec<TimeSegment> = Vec::new();
            let mut i: usize = 0;
            while i < ws.len()
                invariant
                    *w == WireValue::List(*ws),
                    i <= ws@.len(),
                    ss@.len() == i,
                    forall|j: int| 0 <= j < i ==> time_segment_read_as(#[trigger] ws@[j], ss@[j]),
                decreases ws.len() - i,
            {
                match decode_time_segment(&ws[i]) {
                    Ok(s) => ss.push(s),
                    Err(e) => {
                        let e = Error::serialisation("while deserialising time segments", e.to_message());
                        assert(!time_segment_readable(w->List_0@[i as int]));
                        return Err(e);
                    },
                }
                i = i + 1;
            }
            Ok(ss)
        },
        _ => Err(list_error("while deserialising time segments")),
    }
}

/// Decodes one pair `[segment, [task, ...]]`.
fn decode_group(p: &WireValue) -> (r: Result<(TimeSegment, Vec<Task>), Error>)
    ensures
        r is Ok <==> group_readable(*p),
        r matches Ok(g) ==> group_read_as(*p, g.0, g.1@),
        r matches Err(e) ==> e.kind == ErrorKind::Serialisation,
{
    match p {
        WireValue::List(pair) => {
            if pair.len() != 2 {
                return Err(Error::serialisation(
                    "while deserialising tasks per time segment",
                    String::from_str("expected a pair of a time segment and its tasks"),
                ));
            }
            let s = decode_time_segment(&pair[0])?;
            let ts = decode_tasks(&pair[1])?;
            Ok((s, ts))
        },
        _ => Err(list_error("while deserialising tasks per time segment")),
    }
}

/// Decodes the tasks of each time segment: a list of pairs
/// `[segment, [task, ...]]`, keeping their order.
pub fn decode_groups(w: &WireValue) -> (r: Result<Vec<(TimeSegment, Vec<Task>)>, Error>)
    ensures
        r is Ok <==> groups_readable(*w),
        r matches Ok(gs) ==> groups_read_as(*w, gs@),
        r matches Err(e) ==> e.kind == ErrorKind::Serialisation,
        r matches Err(e) ==> e.context@ == "while deserialising tasks per time segment"@,
{
    match w {
        WireValue::List(ps) => {
            let mut gs: Vec<(TimeSegment, Vec<Task>)> = Vec::new();
            let mut i: usize = 0;
            while i < ps.len()
                invariant
                    *w == WireValue::List(*ps),
                    i <= ps@.len(),
                    gs@.len() == i,
                    forall|j: int| 0 <= j < i ==> group_read_as(#[trigger] ps@[j], gs@[j].0, gs@[j].1@),
                decreases ps.len() - i,
            {
                match decode_group(&ps[i]) {
                    Ok(g) => gs.push(g),
                    Err(e) => {
                        let e = Error::serialisation("while deserialising tasks per time segment", e.to_message());
                        assert(!group_readable(w->List_0@[i as int]));
                        return Err(e);
                    },
                }
                i = i + 1;
            }
            Ok(gs)
        },
        _ => Err(list_error("while deserialising tasks per time segment")),
    }
}

/// Encodes a list of tasks, keeping their order.
pub fn encode_tasks(ts: &Vec<Task>) -> (r: Result<WireValue, Error>)
    ensures
        r is Ok <==> tasks_writable(ts@),
        r matches Ok(w) ==> is_tasks_document(w, ts@),
        r matches Err(e) ==> e.kind == ErrorKind::Serialisation,
{
    let mut ws: Vec<WireValue> = Vec::new();
    let mut i: usize = 0;
    while i < ts.len()
        invariant
            i <= ts@.len(),
            ws@.len() == i,
            forall|j: int| 0 <= j < i ==> new_task_writable(request_of(#[trigger] ts@[j])),
            forall|j: int| 0 <= j < i ==> is_task_document(#[trigger] ws@[j], ts@[j]),
        decreases ts.len() - i,
    {
        match encode_task(&ts[i]) {
            Ok(d) => ws.push(d),
            Err(e) => return Err(e),
        }
        i = i + 1;
    }
    Ok(WireValue::List(ws))
}

/// Encodes a list of time segments, keeping their order.
pub fn encode_time_segments(ss: &Vec<TimeSegment>) -> (r: Result<WireValue, Error>)
    ensures
        r is Ok <==> segments_writable(ss@),
        r matches Ok(w) ==> is_segments_document(w, ss@),
        r matches Err(e) ==> e.kind == ErrorKind::Serialisation,
{
    let mut ws: Vec<WireValue> = Vec::new();
    let mut i: usize = 0;
    while i < ss.len()
        invariant
            i <= ss@.len(),
            ws@.len() == i,
            forall|j: int| 0 <= j < i ==> segment_writable((#[trigger] ss@[j]).ranges@, ss@[j].start),
            forall|j: int| 0 <= j < i ==> is_time_segment_document(#[trigger] ws@[j], ss@[j]),
        decreases ss.len() - i,
    {
        match encode_time_segment(&ss[i]) {
            Ok(d) => ws.push(d),
            Err(e) => return Err(e),
        }
        i = i + 1;
    }
    Ok(WireValue::List(ws))
}

/// Encodes a schedule as the list of its scheduled tasks, each `{task, when}`,
/// in the order the scheduler produced them.
pub fn encode_schedule(s: &Schedule) -> (r: Result<WireValue, Error>)
    ensures
        r is Ok <==> forall|i: int| 0 <= i < s.tasks@.len() ==> scheduled_writable(#[trigger] s.tasks@[i]),
        r matches Ok(w) ==> is_schedule_document(w, s.tasks@),
        r matches Err(e) ==> e.kind == ErrorKind::Serialisation,
{
    let mut ws: Vec<WireValue> = Vec::new();
    let mut i: usize = 0;
    while i < s.tasks.len()
        invariant
            i <= s.tasks@.len(),
            ws@.len() == i,
            forall|j: int| 0 <= j < i ==> scheduled_writable(#[trigger] s.tasks@[j]),
            forall|j: int| 0 <= j < i ==> is_scheduled_document(#[trigger] ws@[j], s.tasks@[j]),
        decreases s.tasks.len() - i,
    {
        let item = &s.tasks[i];
        let task = match encode_task(&item.task) {
            Ok(d) => d,
            Err(e) => return Err(e),
        };
        let when = match write_timestamp(item.when) {
            Some(w) => w,
            None => return Err(Error::serialisation(
                "while serialising a schedule",
                String::from_str("a scheduled instant is outside chrono's range of dates"),
            )),
        };
        let mut fs: Vec<(String, WireValue)> = Vec::new();
        fs.push((String::from_str("task"), task));
        fs.push((String::from_str("when"), when));
        ws.push(WireValue::Object(fs));
        i = i + 1;
    }
    Ok(WireValue::List(ws))
}

/// Reads the revision token of a stored document.
pub fn read_revision(w: &WireValue) -> (r: Option<String>)
    ensures
        r == revision_of(*w),
{
    match w {
        WireValue::Object(fs) => match field(fs, "_rev") {
            Some(v) => read_text(v),
            None => None,
        },
        _ => None,
    }
}

/// The number of items of a list.
pub fn read_list_len(w: &WireValue) -> (r: Option<usize>)
    ensures
        match r {
            Some(n) => list_len(*w) == Some(n as nat),
            None => list_len(*w) is None,
        },
{
    match w {
        WireValue::List(ws) => Some(ws.len()),
        _ => None,
    }
}

} // verus!
