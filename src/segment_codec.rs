//! The codec for time segments and their ranges of instants.
use vstd::prelude::*;
use crate::codec::{
    document_id, lemma_keys_differ, timestamp_round_trips, duration_of, is_duration_value, is_timestamp_text, read_document_id,
    read_duration, read_timestamp, timestamp_of, write_duration, write_timestamp,
};
use crate::error::{Error, ErrorKind};
use crate::model::{DateRange, Duration, NewTimeSegment, TimeSegment, Timestamp};
use crate::time::{rfc3339_text, timestamp_in_range};
use crate::wire::{WireValue, field, field_of, lemma_field_of_first, read_text, text_of};

verus! {

/// The range that a document `{start, end}` describes.
pub open spec fn range_of(w: WireValue) -> Option<DateRange> {
    match w {
        WireValue::Object(fs) => match (field_of(fs@, "start"@), field_of(fs@, "end"@)) {
            (Some(a), Some(b)) => match (timestamp_of(a), timestamp_of(b)) {
                (Some(x), Some(y)) => Some(DateRange { start: x, end: y }),
                _ => None,
            },
            _ => None,
        },
        _ => None,
    }
}

/// Whether `w` is a list of ranges that can all be read.
pub open spec fn ranges_readable(w: WireValue) -> bool {
    w matches WireValue::List(ws) && forall|i: int| 0 <= i < ws@.len() ==> (#[trigger] range_of(ws@[i])) is Some
}

/// Whether `w` is a list of ranges that reads as `rs`, in order.
pub open spec fn ranges_read_as(w: WireValue, rs: Seq<DateRange>) -> bool {
    &&& w matches WireValue::List(ws)
    &&& rs.len() == ws@.len()
    &&& forall|i: int| 0 <= i < ws@.len() ==> Some(rs[i]) == #[trigger] range_of(ws@[i])
}

/// Whether each member of a time segment other than its identifier can be read.
pub open spec fn segment_members_readable(fs: Seq<(String, WireValue)>) -> bool {
    &&& field_of(fs, "name"@) matches Some(n) && text_of(n) is Some
    &&& field_of(fs, "ranges"@) matches Some(r) && ranges_readable(r)
    &&& field_of(fs, "start"@) matches Some(s) && timestamp_of(s) is Some
    &&& field_of(fs, "period"@) matches Some(p) && duration_of(p) is Some
}

/// Whether the members `fs` read as a time segment with these fields.
pub open spec fn segment_members_read_as(
    fs: Seq<(String, WireValue)>,
    name: String,
    ranges: Seq<DateRange>,
    start: Timestamp,
    period: Duration,
) -> bool {
    &&& segment_members_readable(fs)
    &&& text_of(field_of(fs, "name"@)->0) == Some(name)
    &&& ranges_read_as(field_of(fs, "ranges"@)->0, ranges)
    &&& timestamp_of(field_of(fs, "start"@)->0) == Some(start)
    &&& duration_of(field_of(fs, "period"@)->0) == Some(period)
}

/// Whether `w` can be read as a creation request for a time segment.
pub open spec fn new_time_segment_readable(w: WireValue) -> bool {
    w matches WireValue::Object(fs) && segment_members_readable(fs@)
}

/// Whether `w` reads as the creation request `s`; an identifier in it is ignored.
pub open spec fn new_time_segment_read_as(w: WireValue, s: NewTimeSegment) -> bool {
    w matches WireValue::Object(fs) && segment_members_read_as(fs@, s.name, s.ranges@, s.start, s.period)
}

/// Whether `w` can be read as a time segment.
pub open spec fn time_segment_readable(w: WireValue) -> bool {
    w matches WireValue::Object(fs) && document_id(fs@) is Some && segment_members_readable(fs@)
}

/// Whether `w` reads as the time segment `s`.
pub open spec fn time_segment_read_as(w: WireValue, s: TimeSegment) -> bool {
    &&& w matches WireValue::Object(fs)
    &&& document_id(fs@) == Some(s.id)
    &&& segment_members_read_as(fs@, s.name, s.ranges@, s.start, s.period)
}

/// Whether `w` is the document that the codec writes for the range `r`.
pub open spec fn is_range_document(w: WireValue, r: DateRange) -> bool {
    &&& w matches WireValue::Object(fs)
    &&& fs@.len() == 2
    &&& fs@[0].0@ == "start"@ && is_timestamp_text(fs@[0].1, r.start)
    &&& fs@[1].0@ == "end"@ && is_timestamp_text(fs@[1].1, r.end)
}

/// Whether chrono can write both ends of `r`.
pub open spec fn range_writable(r: DateRange) -> bool {
    rfc3339_text(r.start.secs, r.start.nanos) is Some && rfc3339_text(r.end.secs, r.end.nanos) is Some
}

/// Whether both ends of `r` are instants that chrono can always represent.
pub open spec fn range_in_range(r: DateRange) -> bool {
    timestamp_in_range(r.start) && timestamp_in_range(r.end)
}

/// Whether every instant of a time segment is one that chrono can always represent.
pub open spec fn segment_in_range(ranges: Seq<DateRange>, start: Timestamp) -> bool {
    &&& forall|i: int| 0 <= i < ranges.len() ==> range_in_range(#[trigger] ranges[i])
    &&& timestamp_in_range(start)
}

/// Whether chrono can write every instant of a time segment.
pub open spec fn segment_writable(ranges: Seq<DateRange>, start: Timestamp) -> bool {
    &&& forall|i: int| 0 <= i < ranges.len() ==> range_writable(#[trigger] ranges[i])
    &&& rfc3339_text(start.secs, start.nanos) is Some
}

/// Whether `fs` are the members that the codec writes for a time segment, in
/// order: `name`, `ranges`, `start`, `period`.
pub open spec fn segment_members(
    fs: Seq<(String, WireValue)>,
    name: String,
    ranges: Seq<DateRange>,
    start: Timestamp,
    period: Duration,
) -> bool {
    &&& fs.len() == 4
    &&& fs[0].0@ == "name"@ && fs[0].1 == WireValue::Text(name)
    &&& fs[1].0@ == "ranges"@
    &&& fs[1].1 matches WireValue::List(ws) && ws@.len() == ranges.len()
        && forall|i: int| 0 <= i < ranges.len() ==> is_range_document(#[trigger] ws@[i], ranges[i])
    &&& fs[2].0@ == "start"@ && is_timestamp_text(fs[2].1, start)
    &&& fs[3].0@ == "period"@ && is_duration_value(fs[3].1, period)
}

/// Whether `w` is the document that the codec writes for the request `s`.
pub open spec fn is_new_time_segment_document(w: WireValue, s: NewTimeSegment) -> bool {
    w matches WireValue::Object(fs) && segment_members(fs@, s.name, s.ranges@, s.start, s.period)
}

/// Whether `w` is the document that the codec writes for the time segment `s`:
/// its identifier under `id`, then the members of a request.
pub open spec fn is_time_segment_document(w: WireValue, s: TimeSegment) -> bool {
    &&& w matches WireValue::Object(fs)
    &&& fs@.len() == 5
    &&& fs@[0].0@ == "id"@ && fs@[0].1 == WireValue::Integer(s.id as i64)
    &&& segment_members(fs@.drop_first(), s.name, s.ranges@, s.start, s.period)
}

fn segment_error(context: &str, key: &str) -> (r: Error)
    ensures
        r.kind == ErrorKind::Serialisation,
        r.context@ == context@,
{
    let mut cause = String::from_str("the member `");
    cause.append(key);
    cause.append("` is missing or has the wrong type");
    Error::serialisation(context, cause)
}

/// Reads a range of instants.
pub fn read_range(w: &WireValue) -> (r: Option<DateRange>)
    ensures
        r == range_of(*w),
{
    match w {
        WireValue::Object(fs) => {
            let a = match field(fs, "start") {
                Some(v) => v,
                None => return None,
            };
            let b = match field(fs, "end") {
                Some(v) => v,
                None => return None,
            };
            match (read_timestamp(a), read_timestamp(b)) {
                (Some(x), Some(y)) => Some(DateRange { start: x, end: y }),
                _ => None,
            }
        },
        _ => None,
    }
}

/// Reads a list of ranges, keeping their order.
pub fn read_ranges(w: &WireValue) -> (r: Option<Vec<DateRange>>)
    ensures
        r is Some <==> ranges_readable(*w),
        r matches Some(rs) ==> ranges_read_as(*w, rs@),
{
    match w {
        WireValue::List(ws) => {
            let mut rs: Vec<DateRange> = Vec::new();
            let mut i: usize = 0;
            while i < ws.len()
                invariant
                    *w == WireValue::List(*ws),
                    i <= ws@.len(),
                    rs@.len() == i,
                    forall|j: int| 0 <= j < i ==> Some(rs@[j]) == #[trigger] range_of(ws@[j]),
                decreases ws.len() - i,
            {
                match read_range(&ws[i]) {
                    Some(x) => rs.push(x),
                    None => {
                        assert(range_of(ws@[i as int]) is None);
                        return None;
                    },
                }
                i = i + 1;
            }
            Some(rs)
        },
        _ => None,
    }
}

/// Reads the members of a time segment other than its identifier.
fn read_segment_members(fs: &Vec<(String, WireValue)>, context: &str) -> (r: Result<
    (String, Vec<DateRange>, Timestamp, Duration),
    Error,
>)
    ensures
        r is Ok <==> segment_members_readable(fs@),
        r matches Ok(m) ==> segment_members_read_as(fs@, m.0, m.1@, m.2, m.3),
        r matches Err(e) ==> e.kind == ErrorKind::Serialisation,
        r matches Err(e) ==> e.context@ == context@,
{
    let name = match field(fs, "name") {
        Some(v) => match read_text(v) {
            Some(s) => s,
            None => return Err(segment_error(context, "name")),
        },
        None => return Err(segment_error(context, "name")),
    };
    let ranges = match field(fs, "ranges") {
        Some(v) => match read_ranges(v) {
            Some(rs) => rs,
            None => return Err(segment_error(context, "ranges")),
        },
        None => return Err(segment_error(context, "ranges")),
    };
    let start = match field(fs, "start") {
        Some(v) => match read_timestamp(v) {
            Some(t) => t,
            None => return Err(segment_error(context, "start")),
        },
        None => return Err(segment_error(context, "start")),
    };
    let period = match field(fs, "period") {
        Some(v) => match read_duration(v) {
            Some(d) => d,
            None => return Err(segment_error(context, "period")),
        },
        None => return Err(segment_error(context, "period")),
    };
    Ok((name, ranges, start, period))
}

/// Decodes a creation request for a time segment; an identifier in it is ignored.
pub fn decode_new_time_segment(w: &WireValue) -> (r: Result<NewTimeSegment, Error>)
    ensures
        r is Ok <==> new_time_segment_readable(*w),
        r matches Ok(s) ==> new_time_segment_read_as(*w, s),
        r matches Err(e) ==> e.kind == ErrorKind::Serialisation,
        r matches Err(e) ==> e.context@ == "while deserialising a new time segment"@,
{
    match w {
        WireValue::Object(fs) => {
            let m = read_segment_members(fs, "while deserialising a new time segment")?;
            Ok(NewTimeSegment { name: m.0, ranges: m.1, start: m.2, period: m.3 })
        },
        _ => Err(segment_error("while deserialising a new time segment", "(the document itself)")),
    }
}

/// Decodes a time segment.
pub fn decode_time_segment(w: &WireValue) -> (r: Result<TimeSegment, Error>)
    ensures
        r is Ok <==> time_segment_readable(*w),
        r matches Ok(s) ==> time_segment_read_as(*w, s),
        r matches Err(e) ==> e.kind == ErrorKind::Serialisation,
        r matches Err(e) ==> e.context@ == "while deserialising a time segment"@,
{
    match w {
        WireValue::Object(fs) => {
            let id = match read_document_id(fs) {
                Some(id) => id,
                None => return Err(segment_error("while deserialising a time segment", "id")),
            };
            let m = read_segment_members(fs, "while deserialising a time segment")?;
            Ok(TimeSegment { id, name: m.0, ranges: m.1, start: m.2, period: m.3 })
        },
        _ => Err(segment_error("while deserialising a time segment", "(the document itself)")),
    }
}

/// Writes a range of instants.
pub fn write_range(r: DateRange) -> (w: Option<WireValue>)
    ensures
        w is Some <==> range_writable(r),
        range_in_range(r) ==> w is Some,
        w matches Some(d) ==> is_range_document(d, r),
{
    let a = match write_timestamp(r.start) {
        Some(a) => a,
        None => return None,
    };
    let b = match write_timestamp(r.end) {
        Some(b) => b,
        None => return None,
    };
    let mut fs: Vec<(String, WireValue)> = Vec::new();
    fs.push((String::from_str("start"), a));
    fs.push((String::from_str("end"), b));
    Some(WireValue::Object(fs))
}

/// Appends the members of a time segment other than its identifier.
fn write_segment_members(
    fs: &mut Vec<(String, WireValue)>,
    name: &String,
    ranges: &Vec<DateRange>,
    start: Timestamp,
    period: Duration,
    context: &str,
) -> (r: Result<(), Error>)
    ensures
        r is Ok <==> segment_writable(ranges@, start),
        segment_in_range(ranges@, start) ==> r is Ok,
        r is Ok ==> final(fs)@.len() == old(fs)@.len() + 4,
        r is Ok ==> final(fs)@.subrange(0, old(fs)@.len() as int) == old(fs)@,
        r is Ok ==> segment_members(
            final(fs)@.subrange(old(fs)@.len() as int, final(fs)@.len() as int),
            *name,
            ranges@,
            start,
            period,
        ),
        r matches Err(e) ==> e.kind == ErrorKind::Serialisation,
{
    let mut ws: Vec<WireValue> = Vec::new();
    let mut i: usize = 0;
    while i < ranges.len()
        invariant
            i <= ranges@.len(),
            ws@.len() == i,
            forall|j: int| 0 <= j < i ==> range_writable(#[trigger] ranges@[j]),
            forall|j: int| 0 <= j < i ==> is_range_document(#[trigger] ws@[j], ranges@[j]),
        decreases ranges.len() - i,
    {
        match write_range(ranges[i]) {
            Some(d) => ws.push(d),
            None => {
                assert(!range_in_range(ranges@[i as int]));
                return Err(segment_error(context, "ranges"));
            },
        }
        i = i + 1;
    }
    let s = match write_timestamp(start) {
        Some(s) => s,
        None => return Err(segment_error(context, "start")),
    };
    let ghost n = fs@.len();
    fs.push((String::from_str("name"), WireValue::Text(name.clone())));
    fs.push((String::from_str("ranges"), WireValue::List(ws)));
    fs.push((String::from_str("start"), s));
    fs.push((String::from_str("period"), write_duration(period)));
    assert(fs@.subrange(0, n as int) =~= old(fs)@);
    Ok(())
}

/// Encodes a creation request for a time segment.
pub fn encode_new_time_segment(s: &NewTimeSegment) -> (r: Result<WireValue, Error>)
    ensures
        r is Ok <==> segment_writable(s.ranges@, s.start),
        segment_in_range(s.ranges@, s.start) ==> r is Ok,
        r matches Ok(w) ==> is_new_time_segment_document(w, *s),
        r matches Err(e) ==> e.kind == ErrorKind::Serialisation,
{
    let mut fs: Vec<(String, WireValue)> = Vec::new();
    match write_segment_members(&mut fs, &s.name, &s.ranges, s.start, s.period, "while serialising a new time segment") {
        Ok(()) => {},
        Err(e) => return Err(e),
    }
    assert(fs@.subrange(0, fs@.len() as int) =~= fs@);
    Ok(WireValue::Object(fs))
}

/// Encodes a time segment: its identifier under `id`, then the members of a request.
pub fn encode_time_segment(s: &TimeSegment) -> (r: Result<WireValue, Error>)
    ensures
        r is Ok <==> segment_writable(s.ranges@, s.start),
        segment_in_range(s.ranges@, s.start) ==> r is Ok,
        r matches Ok(w) ==> is_time_segment_document(w, *s),
        r matches Err(e) ==> e.kind == ErrorKind::Serialisation,
{
    let mut fs: Vec<(String, WireValue)> = Vec::new();
    fs.push((String::from_str("id"), WireValue::Integer(s.id as i64)));
    match write_segment_members(&mut fs, &s.name, &s.ranges, s.start, s.period, "while serialising a time segment") {
        Ok(()) => {},
        Err(e) => return Err(e),
    }
    assert(fs@.subrange(1, fs@.len() as int) =~= fs@.drop_first());
    assert(fs@[0] == fs@.subrange(0, 1)[0]);
    Ok(WireValue::Object(fs))
}

/// Whether chrono reads back every instant of a time segment as written.
pub open spec fn segment_round_trips(ranges: Seq<DateRange>, start: Timestamp) -> bool {
    &&& forall|i: int| 0 <= i < ranges.len()
        ==> timestamp_round_trips((#[trigger] ranges[i]).start) && timestamp_round_trips(ranges[i].end)
    &&& timestamp_round_trips(start)
}

/// The document written for a range reads back as that range.
proof fn lemma_range_read(w: WireValue, r: DateRange)
    requires
        is_range_document(w, r),
        timestamp_round_trips(r.start),
        timestamp_round_trips(r.end),
    ensures
        range_of(w) == Some(r),
{
    reveal_strlit("start");
    reveal_strlit("end");
    lemma_keys_differ("start"@, "end"@, 0);
    let fs = w->Object_0@;
    lemma_field_of_first(fs, "start"@, 0);
    lemma_field_of_first(fs, "end"@, 1);
}

/// The members written for a time segment read back as its fields.
proof fn lemma_segment_members_read(
    fs: Seq<(String, WireValue)>,
    name: String,
    ranges: Seq<DateRange>,
    start: Timestamp,
    period: Duration,
)
    requires
        segment_members(fs, name, ranges, start, period),
        segment_round_trips(ranges, start),
        period.is_whole(),
    ensures
        segment_members_read_as(fs, name, ranges, start, period),
{
    reveal_strlit("name");
    reveal_strlit("ranges");
    reveal_strlit("start");
    reveal_strlit("period");
    lemma_keys_differ("name"@, "ranges"@, 0);
    lemma_keys_differ("name"@, "start"@, 0);
    lemma_keys_differ("name"@, "period"@, 0);
    lemma_keys_differ("ranges"@, "start"@, 0);
    lemma_keys_differ("ranges"@, "period"@, 0);
    lemma_keys_differ("start"@, "period"@, 0);
    lemma_field_of_first(fs, "name"@, 0);
    lemma_field_of_first(fs, "ranges"@, 1);
    lemma_field_of_first(fs, "start"@, 2);
    lemma_field_of_first(fs, "period"@, 3);
    let ws = fs[1].1->List_0@;
    assert forall|i: int| 0 <= i < ws.len() implies #[trigger] range_of(ws[i]) == Some(ranges[i]) by {
        lemma_range_read(ws[i], ranges[i]);
    }
}

/// Round trip of a time segment through the codec: the document written for a
/// time segment reads back as that same time segment, where the period is a
/// whole number of seconds and chrono reads back each instant it wrote.
pub proof fn law_time_segment_round_trip(s: TimeSegment, w: WireValue)
    requires
        is_time_segment_document(w, s),
        segment_round_trips(s.ranges@, s.start),
        s.period.is_whole(),
    ensures
        time_segment_read_as(w, s),
{
    reveal_strlit("id");
    reveal_strlit("name");
    reveal_strlit("ranges");
    reveal_strlit("start");
    reveal_strlit("period");
    lemma_keys_differ("id"@, "name"@, 0);
    lemma_keys_differ("id"@, "ranges"@, 0);
    lemma_keys_differ("id"@, "start"@, 0);
    lemma_keys_differ("id"@, "period"@, 0);
    let fs = w->Object_0@;
    lemma_segment_members_read(fs.drop_first(), s.name, s.ranges@, s.start, s.period);
    lemma_field_of_first(fs, "id"@, 0);
}

} // verus!
