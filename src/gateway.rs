//! The store gateway: each operation is a state machine that asks the document
//! store for one thing at a time and decides, from each answer, what to ask next
//! or how the operation ends.
//!
//! The caller performs each request and hands the answer to [`resume`]. A
//! foreign key is checked before any write; updates and deletions carry the
//! revision read just before, so that the store refuses them if the document
//! changed meanwhile; a time segment is deleted only when no task references it
//! and it is not the last one.
use vstd::prelude::*;
use crate::codec::{encode_task, is_new_task_document, is_task_document, new_task_writable, request_of};
use crate::codec::{document_id, encode_new_task};
use crate::error::{Error, ErrorKind, is_database_error, is_invariant_error};
use crate::list_codec::{
    decode_groups, decode_tasks, decode_time_segments, groups_read_as, groups_readable, list_len,
    read_list_len, read_revision, revision_of, segments_read_as, segments_readable, tasks_read_as,
    tasks_readable,
};
use crate::model::{NewTask, NewTimeSegment, Task, TimeSegment, task_from_new};
use crate::segment_codec::{
    decode_time_segment, encode_new_time_segment, encode_time_segment, time_segment_readable, is_new_time_segment_document,
    is_time_segment_document, segment_writable,
};
use crate::store::{DocumentKind, StoreFailure, StoreRequest, failure_text, store_error};
use crate::text::{decimal_string, decimal_text};
use crate::wire::WireValue;

verus! {

/// What a finished operation hands back.
#[derive(Debug)]
pub enum Outcome {
    /// The operation has no result.
    Done,
    /// The task that was created.
    Task(Task),
    Tasks(Vec<Task>),
    TimeSegments(Vec<TimeSegment>),
    /// Each time segment with the tasks that reference it.
    Groups(Vec<(TimeSegment, Vec<Task>)>),
}

/// An operation waiting for the store's answer to its last request.
#[derive(Debug)]
pub enum Pending {
    AddTaskCheckSegment { new_task: NewTask, id: u32 },
    AddTaskCreate { task: Task },
    RemoveTaskRead { id: u32 },
    RemoveTaskDelete,
    UpdateTaskCheckSegment { task: Task },
    UpdateTaskRead { task: Task },
    UpdateTaskWrite,
    ListTasks,
    ListTasksPerTimeSegment,
    AddTimeSegmentCreate,
    UpdateTimeSegmentRead { segment: TimeSegment },
    UpdateTimeSegmentWrite,
    DeleteTimeSegmentCountTasks { id: u32 },
    DeleteTimeSegmentCountSegments { id: u32 },
    DeleteTimeSegmentRead { id: u32 },
    DeleteTimeSegmentDelete,
    ListTimeSegments,
}

/// The next step of an operation: a request to the store, or the end.
#[derive(Debug)]
pub enum Progress {
    Ask(Pending, StoreRequest),
    Finished(Result<Outcome, Error>),
}

/// The reason given when tasks still reference a time segment to delete.
pub open spec fn tasks_remaining_text(n: nat) -> Seq<char> {
    if n == 1 {
        "There is still a task"@ + TASKS_REMAINING_ADVICE@
    } else {
        "There are still "@ + decimal_text(n) + " tasks"@ + TASKS_REMAINING_ADVICE@
    }
}

pub const TASKS_REMAINING_ADVICE: &'static str =
    " in this time segment. Please delete them or move them to another segment before deleting this segment.";

/// The reason given when the time segment to delete is the last one.
pub const LAST_SEGMENT_REASON: &'static str =
    "If you remove the last time segment, when should I schedule things?";

/// The context of the errors that the two rules of deletion give.
pub const DELETE_SEGMENT_CONTEXT: &'static str = "while deleting a time segment";

/// Whether the operation ended with a Database error for `context` and `f`.
pub open spec fn fails_in_store(r: Progress, context: Seq<char>, f: StoreFailure) -> bool {
    r matches Progress::Finished(Err(e)) && is_database_error(e, context, failure_text(f))
}

/// Whether the operation ended with a Serialisation error.
pub open spec fn fails_to_encode(r: Progress) -> bool {
    r matches Progress::Finished(Err(e)) && e.kind == ErrorKind::Serialisation
}

/// Whether the operation ended with a Serialisation error in `context`.
pub open spec fn fails_to_decode(r: Progress, context: Seq<char>) -> bool {
    r matches Progress::Finished(Err(e)) && e.kind == ErrorKind::Serialisation && e.context@ == context
}

/// Whether the operation ended with nothing to hand back.
pub open spec fn finishes_done(r: Progress) -> bool {
    r matches Progress::Finished(Ok(Outcome::Done))
}

/// Whether the operation goes on by reading the document `id`.
pub open spec fn asks_get(r: Progress, next: Pending, id: u32) -> bool {
    r matches Progress::Ask(p, StoreRequest::Get { id: i }) && p == next && i == id
}

/// Whether the operation goes on by deleting `id` at the revision of `doc`.
pub open spec fn asks_delete(r: Progress, next: Pending, id: u32, doc: WireValue) -> bool {
    r matches Progress::Ask(p, StoreRequest::Delete { id: i, revision }) && p == next && i == id
        && revision_of(doc) == Some(revision)
}

/// Whether the operation ends because the revision of `doc` cannot be read.
pub open spec fn fails_without_revision(r: Progress, doc: WireValue) -> bool {
    revision_of(doc) is None && fails_to_encode(r)
}

/// The context of the errors that the check of a task's time segment gives.
pub const SEGMENT_LOOKUP_CONTEXT: &'static str = "while searching for the time segment of the new task";

/// The cause given when the document found under a task's time segment
/// identifier is not that time segment (a task's document, for one).
pub const NOT_A_SEGMENT: &'static str = "the document under this identifier is not a time segment";

/// Whether `doc` is the document of the time segment `id`: it reads as a time
/// segment, and its identifier is `id`.
pub open spec fn is_segment_document_for(doc: WireValue, id: u32) -> bool {
    &&& time_segment_readable(doc)
    &&& doc matches WireValue::Object(fs) && document_id(fs@) == Some(id)
}

/// Whether the operation ended because the time segment `id` does not exist:
/// the store did not find it, or found a document that is not it.
pub open spec fn fails_segment_check(reply: Result<WireValue, StoreFailure>, id: u32, r: Progress) -> bool {
    match reply {
        Err(f) => fails_in_store(r, SEGMENT_LOOKUP_CONTEXT@, f),
        Ok(doc) => {
            &&& !is_segment_document_for(doc, id)
            &&& r matches Progress::Finished(Err(e)) && is_database_error(e, SEGMENT_LOOKUP_CONTEXT@, NOT_A_SEGMENT@)
        },
    }
}

/// Whether the store's answer shows that the time segment `id` exists.
pub open spec fn segment_found(reply: Result<WireValue, StoreFailure>, id: u32) -> bool {
    reply matches Ok(doc) && is_segment_document_for(doc, id)
}

/// Adding a task, once the referenced time segment was looked up: it goes on
/// only where the answer is that time segment's document.
pub open spec fn add_task_after_lookup(new_task: NewTask, id: u32, reply: Result<WireValue, StoreFailure>, r: Progress) -> bool {
    if !segment_found(reply, new_task.time_segment_id) {
        fails_segment_check(reply, new_task.time_segment_id, r)
    } else {
        if new_task_writable(new_task) {
            r matches Progress::Ask(
                Pending::AddTaskCreate { task },
                StoreRequest::Create { id: i, kind: DocumentKind::Task, document },
            ) && task == task_from_new(id, new_task) && i == id && is_new_task_document(document, new_task)
        } else {
            fails_to_encode(r)
        }
    }
}

/// Adding a task, once the store answered the creation.
pub open spec fn add_task_after_create(task: Task, reply: Result<WireValue, StoreFailure>, r: Progress) -> bool {
    match reply {
        Err(f) => fails_in_store(r, "while creating a task"@, f),
        Ok(_) => r matches Progress::Finished(Ok(Outcome::Task(t))) && t == task,
    }
}

/// Removing a task, once its document was read.
pub open spec fn remove_task_after_read(id: u32, reply: Result<WireValue, StoreFailure>, r: Progress) -> bool {
    match reply {
        Err(f) => fails_in_store(r, "while looking up a task to delete"@, f),
        Ok(doc) => if revision_of(doc) is Some {
            asks_delete(r, Pending::RemoveTaskDelete, id, doc)
        } else {
            fails_without_revision(r, doc)
        },
    }
}

/// Updating a task, once the referenced time segment was looked up: it goes on
/// only where the answer is that time segment's document.
pub open spec fn update_task_after_lookup(task: Task, reply: Result<WireValue, StoreFailure>, r: Progress) -> bool {
    if segment_found(reply, task.time_segment_id) {
        asks_get(r, Pending::UpdateTaskRead { task }, task.id)
    } else {
        fails_segment_check(reply, task.time_segment_id, r)
    }
}

/// Updating a task, once its stored document was read.
pub open spec fn update_task_after_read(task: Task, reply: Result<WireValue, StoreFailure>, r: Progress) -> bool {
    match reply {
        Err(f) => fails_in_store(r, "while looking up a task to update"@, f),
        Ok(doc) => if revision_of(doc) is None {
            fails_without_revision(r, doc)
        } else if new_task_writable(request_of(task)) {
            r matches Progress::Ask(
                Pending::UpdateTaskWrite,
                StoreRequest::Update { id, revision, kind: DocumentKind::Task, document },
            ) && id == task.id && revision_of(doc) == Some(revision) && is_task_document(document, task)
        } else {
            fails_to_encode(r)
        },
    }
}

/// Updating a time segment, once its stored document was read.
pub open spec fn update_segment_after_read(s: TimeSegment, reply: Result<WireValue, StoreFailure>, r: Progress) -> bool {
    match reply {
        Err(f) => fails_in_store(r, "while looking up a time segment to update"@, f),
        Ok(doc) => if revision_of(doc) is None {
            fails_without_revision(r, doc)
        } else if segment_writable(s.ranges@, s.start) {
            r matches Progress::Ask(
                Pending::UpdateTimeSegmentWrite,
                StoreRequest::Update { id, revision, kind: DocumentKind::TimeSegment, document },
            ) && id == s.id && revision_of(doc) == Some(revision) && is_time_segment_document(document, s)
        } else {
            fails_to_encode(r)
        },
    }
}

/// Deleting a time segment, once the tasks that reference it were listed: it
/// goes on only where there are none.
pub open spec fn delete_segment_after_tasks(id: u32, reply: Result<WireValue, StoreFailure>, r: Progress) -> bool {
    match reply {
        Err(f) => fails_in_store(r, "while fetching the tasks of a time segment"@, f),
        Ok(w) => match list_len(w) {
            None => fails_to_encode(r),
            Some(n) => if n == 0 {
                r matches Progress::Ask(p, StoreRequest::AllTimeSegments)
                    && p == (Pending::DeleteTimeSegmentCountSegments { id })
            } else {
                r matches Progress::Finished(Err(e))
                    && is_invariant_error(e, DELETE_SEGMENT_CONTEXT@, tasks_remaining_text(n))
            },
        },
    }
}

/// Deleting a time segment, once all time segments were listed: it goes on only
/// where at least two exist.
pub open spec fn delete_segment_after_segments(id: u32, reply: Result<WireValue, StoreFailure>, r: Progress) -> bool {
    match reply {
        Err(f) => fails_in_store(r, "while fetching all time segments"@, f),
        Ok(w) => match list_len(w) {
            None => fails_to_encode(r),
            Some(n) => if n <= 1 {
                r matches Progress::Finished(Err(e))
                    && is_invariant_error(e, DELETE_SEGMENT_CONTEXT@, LAST_SEGMENT_REASON@)
            } else {
                asks_get(r, Pending::DeleteTimeSegmentRead { id }, id)
            },
        },
    }
}

/// Deleting a time segment, once its document was read.
pub open spec fn delete_segment_after_read(id: u32, reply: Result<WireValue, StoreFailure>, r: Progress) -> bool {
    match reply {
        Err(f) => fails_in_store(r, "while looking up a time segment to delete"@, f),
        Ok(doc) => if revision_of(doc) is Some {
            asks_delete(r, Pending::DeleteTimeSegmentDelete, id, doc)
        } else {
            fails_without_revision(r, doc)
        },
    }
}

/// A write whose success ends the operation.
pub open spec fn ends_after_write(context: Seq<char>, reply: Result<WireValue, StoreFailure>, r: Progress) -> bool {
    match reply {
        Err(f) => fails_in_store(r, context, f),
        Ok(_) => finishes_done(r),
    }
}

/// How an operation in state `p` goes on when the store answers `reply`.
pub open spec fn resumes_to(p: Pending, reply: Result<WireValue, StoreFailure>, r: Progress) -> bool {
    match p {
        Pending::AddTaskCheckSegment { new_task, id } => add_task_after_lookup(new_task, id, reply, r),
        Pending::AddTaskCreate { task } => add_task_after_create(task, reply, r),
        Pending::RemoveTaskRead { id } => remove_task_after_read(id, reply, r),
        Pending::RemoveTaskDelete => ends_after_write("while deleting a task"@, reply, r),
        Pending::UpdateTaskCheckSegment { task } => update_task_after_lookup(task, reply, r),
        Pending::UpdateTaskRead { task } => update_task_after_read(task, reply, r),
        Pending::UpdateTaskWrite => ends_after_write("while updating a task"@, reply, r),
        Pending::ListTasks => match reply {
            Err(f) => fails_in_store(r, "while loading all tasks"@, f),
            Ok(w) => if tasks_readable(w) {
                r matches Progress::Finished(Ok(Outcome::Tasks(ts))) && tasks_read_as(w, ts@)
            } else {
                fails_to_decode(r, "while deserialising tasks"@)
            },
        },
        Pending::ListTasksPerTimeSegment => match reply {
            Err(f) => fails_in_store(r, "while loading the tasks of each time segment"@, f),
            Ok(w) => if groups_readable(w) {
                r matches Progress::Finished(Ok(Outcome::Groups(gs))) && groups_read_as(w, gs@)
            } else {
                fails_to_decode(r, "while deserialising tasks per time segment"@)
            },
        },
        Pending::AddTimeSegmentCreate => ends_after_write("while creating a time segment"@, reply, r),
        Pending::UpdateTimeSegmentRead { segment } => update_segment_after_read(segment, reply, r),
        Pending::UpdateTimeSegmentWrite => ends_after_write("while updating a time segment"@, reply, r),
        Pending::DeleteTimeSegmentCountTasks { id } => delete_segment_after_tasks(id, reply, r),
        Pending::DeleteTimeSegmentCountSegments { id } => delete_segment_after_segments(id, reply, r),
        Pending::DeleteTimeSegmentRead { id } => delete_segment_after_read(id, reply, r),
        Pending::DeleteTimeSegmentDelete => ends_after_write(DELETE_SEGMENT_CONTEXT@, reply, r),
        Pending::ListTimeSegments => match reply {
            Err(f) => fails_in_store(r, "while loading time segments"@, f),
            Ok(w) => if segments_readable(w) {
                r matches Progress::Finished(Ok(Outcome::TimeSegments(ss))) && segments_read_as(w, ss@)
            } else {
                fails_to_decode(r, "while deserialising time segments"@)
            },
        },
    }
}

/// The reason given when `n` tasks still reference a time segment to delete.
pub fn tasks_remaining_message(n: usize) -> (r: String)
    ensures
        r@ == tasks_remaining_text(n as nat),
{
    if n == 1 {
        let mut s = String::from_str("There is still a task");
        s.append(TASKS_REMAINING_ADVICE);
        s
    } else {
        let mut s = String::from_str("There are still ");
        let d = decimal_string(n as u64);
        s.append(d.as_str());
        s.append(" tasks");
        s.append(TASKS_REMAINING_ADVICE);
        s
    }
}

fn missing_revision() -> (r: Progress)
    ensures
        fails_to_encode(r),
{
    Progress::Finished(Err(Error::serialisation(
        "while reading the revision of a document",
        String::from_str("the member `_rev` is missing or has the wrong type"),
    )))
}

fn after_write(context: &str, reply: Result<WireValue, StoreFailure>) -> (r: Progress)
    ensures
        ends_after_write(context@, reply, r),
{
    match reply {
        Err(f) => Progress::Finished(Err(store_error(context, f))),
        Ok(_) => Progress::Finished(Ok(Outcome::Done)),
    }
}

/// Whether `doc` is the document of the time segment `id`.
pub fn names_time_segment(doc: &WireValue, id: u32) -> (r: bool)
    ensures
        r == is_segment_document_for(*doc, id),
{
    match decode_time_segment(doc) {
        Ok(s) => s.id == id,
        Err(_) => false,
    }
}

/// The end of an operation whose time segment check failed, or `None` where the
/// answer is the document of the time segment `id`.
fn check_segment(reply: Result<WireValue, StoreFailure>, id: u32) -> (r: Option<Progress>)
    ensures
        r is None <==> segment_found(reply, id),
        r matches Some(p) ==> fails_segment_check(reply, id, p),
{
    match reply {
        Err(f) => Some(Progress::Finished(Err(store_error(SEGMENT_LOOKUP_CONTEXT, f)))),
        Ok(doc) => if names_time_segment(&doc, id) {
            None
        } else {
            Some(Progress::Finished(Err(Error::database(SEGMENT_LOOKUP_CONTEXT, String::from_str(NOT_A_SEGMENT)))))
        },
    }
}

fn add_task_lookup_answered(new_task: NewTask, id: u32, reply: Result<WireValue, StoreFailure>) -> (r: Progress)
    ensures
        add_task_after_lookup(new_task, id, reply, r),
{
    match check_segment(reply, new_task.time_segment_id) {
        Some(failed) => failed,
        None => match encode_new_task(&new_task) {
            Err(e) => Progress::Finished(Err(e)),
            Ok(document) => Progress::Ask(
                Pending::AddTaskCreate { task: Task::from_new(id, new_task) },
                StoreRequest::Create { id, kind: DocumentKind::Task, document },
            ),
        },
    }
}

fn add_task_create_answered(task: Task, reply: Result<WireValue, StoreFailure>) -> (r: Progress)
    ensures
        add_task_after_create(task, reply, r),
{
    match reply {
        Err(f) => Progress::Finished(Err(store_error("while creating a task", f))),
        Ok(_) => Progress::Finished(Ok(Outcome::Task(task))),
    }
}

fn remove_task_read_answered(id: u32, reply: Result<WireValue, StoreFailure>) -> (r: Progress)
    ensures
        remove_task_after_read(id, reply, r),
{
    match reply {
        Err(f) => Progress::Finished(Err(store_error("while looking up a task to delete", f))),
        Ok(doc) => match read_revision(&doc) {
            Some(revision) => Progress::Ask(Pending::RemoveTaskDelete, StoreRequest::Delete { id, revision }),
            None => missing_revision(),
        },
    }
}

fn update_task_lookup_answered(task: Task, reply: Result<WireValue, StoreFailure>) -> (r: Progress)
    ensures
        update_task_after_lookup(task, reply, r),
{
    match check_segment(reply, task.time_segment_id) {
        Some(failed) => failed,
        None => {
            let id = task.id;
            Progress::Ask(Pending::UpdateTaskRead { task }, StoreRequest::Get { id })
        },
    }
}

fn update_task_read_answered(task: Task, reply: Result<WireValue, StoreFailure>) -> (r: Progress)
    ensures
        update_task_after_read(task, reply, r),
{
    match reply {
        Err(f) => Progress::Finished(Err(store_error("while looking up a task to update", f))),
        Ok(doc) => match read_revision(&doc) {
            None => missing_revision(),
            Some(revision) => match encode_task(&task) {
                Err(e) => Progress::Finished(Err(e)),
                Ok(document) => Progress::Ask(
                    Pending::UpdateTaskWrite,
                    StoreRequest::Update { id: task.id, revision, kind: DocumentKind::Task, document },
                ),
            },
        },
    }
}

fn update_segment_read_answered(segment: TimeSegment, reply: Result<WireValue, StoreFailure>) -> (r: Progress)
    ensures
        update_segment_after_read(segment, reply, r),
{
    match reply {
        Err(f) => Progress::Finished(Err(store_error("while looking up a time segment to update", f))),
        Ok(doc) => match read_revision(&doc) {
            None => missing_revision(),
            Some(revision) => match encode_time_segment(&segment) {
                Err(e) => Progress::Finished(Err(e)),
                Ok(document) => Progress::Ask(
                    Pending::UpdateTimeSegmentWrite,
                    StoreRequest::Update {
                        id: segment.id,
                        revision,
                        kind: DocumentKind::TimeSegment,
                        document,
                    },
                ),
            },
        },
    }
}

fn delete_segment_tasks_answered(id: u32, reply: Result<WireValue, StoreFailure>) -> (r: Progress)
    ensures
        delete_segment_after_tasks(id, reply, r),
{
    match reply {
        Err(f) => Progress::Finished(Err(store_error("while fetching the tasks of a time segment", f))),
        Ok(w) => match read_list_len(&w) {
            None => Progress::Finished(Err(Error::serialisation(
                "while fetching the tasks of a time segment",
                String::from_str("expected a list"),
            ))),
            Some(n) => if n == 0 {
                Progress::Ask(Pending::DeleteTimeSegmentCountSegments { id }, StoreRequest::AllTimeSegments)
            } else {
                Progress::Finished(Err(Error::refusal(DELETE_SEGMENT_CONTEXT, tasks_remaining_message(n))))
            },
        },
    }
}

fn delete_segment_segments_answered(id: u32, reply: Result<WireValue, StoreFailure>) -> (r: Progress)
    ensures
        delete_segment_after_segments(id, reply, r),
{
    match reply {
        Err(f) => Progress::Finished(Err(store_error("while fetching all time segments", f))),
        Ok(w) => match read_list_len(&w) {
            None => Progress::Finished(Err(Error::serialisation(
                "while fetching all time segments",
                String::from_str("expected a list"),
            ))),
            Some(n) => if n <= 1 {
                Progress::Finished(Err(Error::refusal(
                    DELETE_SEGMENT_CONTEXT,
                    String::from_str(LAST_SEGMENT_REASON),
                )))
            } else {
                Progress::Ask(Pending::DeleteTimeSegmentRead { id }, StoreRequest::Get { id })
            },
        },
    }
}

fn delete_segment_read_answered(id: u32, reply: Result<WireValue, StoreFailure>) -> (r: Progress)
    ensures
        delete_segment_after_read(id, reply, r),
{
    match reply {
        Err(f) => Progress::Finished(Err(store_error("while looking up a time segment to delete", f))),
        Ok(doc) => match read_revision(&doc) {
            Some(revision) => Progress::Ask(Pending::DeleteTimeSegmentDelete, StoreRequest::Delete { id, revision }),
            None => missing_revision(),
        },
    }
}

/// Hands the store's answer to the operation waiting in `p`, and says what it
/// asks next or how it ended.
pub fn resume(p: Pending, reply: Result<WireValue, StoreFailure>) -> (r: Progress)
    ensures
        resumes_to(p, reply, r),
{
    match p {
        Pending::AddTaskCheckSegment { new_task, id } => add_task_lookup_answered(new_task, id, reply),
        Pending::AddTaskCreate { task } => add_task_create_answered(task, reply),
        Pending::RemoveTaskRead { id } => remove_task_read_answered(id, reply),
        Pending::RemoveTaskDelete => after_write("while deleting a task", reply),
        Pending::UpdateTaskCheckSegment { task } => update_task_lookup_answered(task, reply),
        Pending::UpdateTaskRead { task } => update_task_read_answered(task, reply),
        Pending::UpdateTaskWrite => after_write("while updating a task", reply),
        Pending::ListTasks => match reply {
            Err(f) => Progress::Finished(Err(store_error("while loading all tasks", f))),
            Ok(w) => match decode_tasks(&w) {
                Ok(ts) => Progress::Finished(Ok(Outcome::Tasks(ts))),
                Err(e) => Progress::Finished(Err(e)),
            },
        },
        Pending::ListTasksPerTimeSegment => match reply {
            Err(f) => Progress::Finished(Err(store_error("while loading the tasks of each time segment", f))),
            Ok(w) => match decode_groups(&w) {
                Ok(gs) => Progress::Finished(Ok(Outcome::Groups(gs))),
                Err(e) => Progress::Finished(Err(e)),
            },
        },
        Pending::AddTimeSegmentCreate => after_write("while creating a time segment", reply),
        Pending::UpdateTimeSegmentRead { segment } => update_segment_read_answered(segment, reply),
        Pending::UpdateTimeSegmentWrite => after_write("while updating a time segment", reply),
        Pending::DeleteTimeSegmentCountTasks { id } => delete_segment_tasks_answered(id, reply),
        Pending::DeleteTimeSegmentCountSegments { id } => delete_segment_segments_answered(id, reply),
        Pending::DeleteTimeSegmentRead { id } => delete_segment_read_answered(id, reply),
        Pending::DeleteTimeSegmentDelete => after_write(DELETE_SEGMENT_CONTEXT, reply),
        Pending::ListTimeSegments => match reply {
            Err(f) => Progress::Finished(Err(store_error("while loading time segments", f))),
            Ok(w) => match decode_time_segments(&w) {
                Ok(ss) => Progress::Finished(Ok(Outcome::TimeSegments(ss))),
                Err(e) => Progress::Finished(Err(e)),
            },
        },
    }
}

/// Starts adding a task under the identifier `id`: the referenced time segment
/// is looked up first, and nothing is written unless it exists.
pub fn start_add_task(new_task: NewTask, id: u32) -> (r: Progress)
    ensures
        r matches Progress::Ask(p, StoreRequest::Get { id: g })
            && p == (Pending::AddTaskCheckSegment { new_task, id })
            && g == new_task.time_segment_id,
{
    let g = new_task.time_segment_id;
    Progress::Ask(Pending::AddTaskCheckSegment { new_task, id }, StoreRequest::Get { id: g })
}

/// Starts adding a task under an identifier drawn at random from the whole
/// range of `u32`.
pub fn add_task(new_task: NewTask) -> (r: Progress)
    ensures
        r matches Progress::Ask(Pending::AddTaskCheckSegment { new_task: t, id }, StoreRequest::Get { id: g })
            && t == new_task && g == new_task.time_segment_id,
{
    let id: u32 = rand::random::<u32>();
    start_add_task(new_task, id)
}

/// Starts removing the task `id`: its document is read for its revision first.
pub fn remove_task(id: u32) -> (r: Progress)
    ensures
        asks_get(r, Pending::RemoveTaskRead { id }, id),
{
    Progress::Ask(Pending::RemoveTaskRead { id }, StoreRequest::Get { id })
}

/// Starts replacing a task: the referenced time segment is looked up first, then
/// the stored task for its revision.
pub fn update_task(task: Task) -> (r: Progress)
    ensures
        asks_get(r, Pending::UpdateTaskCheckSegment { task }, task.time_segment_id),
{
    let g = task.time_segment_id;
    Progress::Ask(Pending::UpdateTaskCheckSegment { task }, StoreRequest::Get { id: g })
}

/// Starts listing every task.
pub fn list_tasks() -> (r: Progress)
    ensures
        r matches Progress::Ask(Pending::ListTasks, StoreRequest::AllTasks),
{
    Progress::Ask(Pending::ListTasks, StoreRequest::AllTasks)
}

/// Starts listing every time segment with the tasks that reference it.
pub fn list_tasks_per_time_segment() -> (r: Progress)
    ensures
        r matches Progress::Ask(Pending::ListTasksPerTimeSegment, StoreRequest::AllTasksPerTimeSegment),
{
    Progress::Ask(Pending::ListTasksPerTimeSegment, StoreRequest::AllTasksPerTimeSegment)
}

/// Whether the operation goes on by creating the document of `segment`.
pub open spec fn creates_segment(r: Progress, segment: NewTimeSegment) -> bool {
    r matches Progress::Ask(
        Pending::AddTimeSegmentCreate,
        StoreRequest::Create { id: _, kind: DocumentKind::TimeSegment, document },
    ) && is_new_time_segment_document(document, segment)
}

/// Starts creating a time segment under the identifier `id`.
pub fn start_add_time_segment(segment: &NewTimeSegment, id: u32) -> (r: Progress)
    ensures
        segment_writable(segment.ranges@, segment.start) ==> creates_segment(r, *segment)
            && r->Ask_1->Create_id == id,
        !segment_writable(segment.ranges@, segment.start) ==> fails_to_encode(r),
{
    match encode_new_time_segment(segment) {
        Ok(document) => Progress::Ask(
            Pending::AddTimeSegmentCreate,
            StoreRequest::Create { id, kind: DocumentKind::TimeSegment, document },
        ),
        Err(e) => Progress::Finished(Err(e)),
    }
}

/// Starts creating a time segment under an identifier drawn at random from the
/// whole range of `u32`.
pub fn add_time_segment(segment: &NewTimeSegment) -> (r: Progress)
    ensures
        segment_writable(segment.ranges@, segment.start) ==> creates_segment(r, *segment),
        !segment_writable(segment.ranges@, segment.start) ==> fails_to_encode(r),
{
    let id: u32 = rand::random::<u32>();
    start_add_time_segment(segment, id)
}

/// Starts replacing a time segment: the stored one is read for its revision first.
pub fn update_time_segment(segment: TimeSegment) -> (r: Progress)
    ensures
        asks_get(r, Pending::UpdateTimeSegmentRead { segment }, segment.id),
{
    let id = segment.id;
    Progress::Ask(Pending::UpdateTimeSegmentRead { segment }, StoreRequest::Get { id })
}

/// Starts deleting a time segment: the tasks that reference it are counted first.
pub fn delete_time_segment(segment: &TimeSegment) -> (r: Progress)
    ensures
        r matches Progress::Ask(p, StoreRequest::TasksForTimeSegment { time_segment_id: g })
            && p == (Pending::DeleteTimeSegmentCountTasks { id: segment.id }) && g == segment.id,
{
    Progress::Ask(
        Pending::DeleteTimeSegmentCountTasks { id: segment.id },
        StoreRequest::TasksForTimeSegment { time_segment_id: segment.id },
    )
}

/// Starts listing every time segment.
pub fn list_time_segments() -> (r: Progress)
    ensures
        r matches Progress::Ask(Pending::ListTimeSegments, StoreRequest::AllTimeSegments),
{
    Progress::Ask(Pending::ListTimeSegments, StoreRequest::AllTimeSegments)
}

/// Adding a task whose time segment exists succeeds: the only write is the
/// creation of the request's document under the drawn identifier, and the task
/// handed back is the request with that identifier. (The store refuses a
/// creation under an identifier already in use, so success means the
/// identifier was free.)
pub proof fn law_add_task_succeeds(
    new_task: NewTask,
    id: u32,
    segment_doc: WireValue,
    asked: Progress,
    created: WireValue,
    ended: Progress,
)
    requires
        new_task_writable(new_task),
        is_segment_document_for(segment_doc, new_task.time_segment_id),
        resumes_to(Pending::AddTaskCheckSegment { new_task, id }, Ok(segment_doc), asked),
        asked matches Progress::Ask(next, _) && resumes_to(next, Ok(created), ended),
    ensures
        asked matches Progress::Ask(_, StoreRequest::Create { id: i, kind: DocumentKind::Task, document })
            && i == id && is_new_task_document(document, new_task),
        ended matches Progress::Finished(Ok(Outcome::Task(t))) && t == task_from_new(id, new_task),
{
}

/// Adding a task whose time segment does not exist fails with a Database error
/// and asks the store for nothing more, so nothing is written. The segment does
/// not exist where the store does not find it, and where the document it finds
/// under that identifier is not that time segment (a task's, for one).
pub proof fn law_add_task_missing_segment(
    new_task: NewTask,
    id: u32,
    reply: Result<WireValue, StoreFailure>,
    r: Progress,
)
    requires
        !segment_found(reply, new_task.time_segment_id),
        resumes_to(Pending::AddTaskCheckSegment { new_task, id }, reply, r),
    ensures
        r matches Progress::Finished(Err(e)) && e.kind == ErrorKind::Database
            && e.context@ == SEGMENT_LOOKUP_CONTEXT@,
{
}

/// Updating a task whose time segment does not exist fails with a Database
/// error and asks the store for nothing more, so nothing is written.
pub proof fn law_update_task_missing_segment(task: Task, reply: Result<WireValue, StoreFailure>, r: Progress)
    requires
        !segment_found(reply, task.time_segment_id),
        resumes_to(Pending::UpdateTaskCheckSegment { task }, reply, r),
    ensures
        r matches Progress::Finished(Err(e)) && e.kind == ErrorKind::Database
            && e.context@ == SEGMENT_LOOKUP_CONTEXT@,
{
}

/// Deleting a time segment that `n >= 1` tasks reference fails with an Invariant
/// error that gives the count (one task in the singular, more with the number),
/// and asks the store for nothing more, so nothing is deleted.
pub proof fn law_delete_segment_with_tasks(id: u32, tasks: WireValue, n: nat, r: Progress)
    requires
        list_len(tasks) == Some(n),
        n >= 1,
        resumes_to(Pending::DeleteTimeSegmentCountTasks { id }, Ok(tasks), r),
    ensures
        r matches Progress::Finished(Err(e)) && is_invariant_error(e, DELETE_SEGMENT_CONTEXT@, tasks_remaining_text(n)),
        n == 1 ==> tasks_remaining_text(n) == "There is still a task"@ + TASKS_REMAINING_ADVICE@,
        n > 1 ==> tasks_remaining_text(n) == "There are still "@ + decimal_text(n) + " tasks"@ + TASKS_REMAINING_ADVICE@,
{
}

/// Deleting the only time segment fails with an Invariant error, even when no
/// task references it, and nothing is deleted.
pub proof fn law_delete_last_segment(
    id: u32,
    tasks: WireValue,
    asked: Progress,
    segments: WireValue,
    ended: Progress,
)
    requires
        list_len(tasks) == Some(0nat),
        list_len(segments) == Some(1nat),
        resumes_to(Pending::DeleteTimeSegmentCountTasks { id }, Ok(tasks), asked),
        asked matches Progress::Ask(next, _) && resumes_to(next, Ok(segments), ended),
    ensures
        asked matches Progress::Ask(_, StoreRequest::AllTimeSegments),
        ended matches Progress::Finished(Err(e)) && is_invariant_error(e, DELETE_SEGMENT_CONTEXT@, LAST_SEGMENT_REASON@),
{
}

/// Deleting a time segment that no task references, while at least two time
/// segments exist, succeeds: after the two checks the segment is read for its
/// revision and deleted at that revision.
pub proof fn law_delete_segment_succeeds(
    id: u32,
    tasks: WireValue,
    asked_segments: Progress,
    segments: WireValue,
    asked_read: Progress,
    doc: WireValue,
    asked_delete: Progress,
    deleted: WireValue,
    ended: Progress,
)
    requires
        list_len(tasks) == Some(0nat),
        list_len(segments) matches Some(n) && n >= 2,
        revision_of(doc) is Some,
        resumes_to(Pending::DeleteTimeSegmentCountTasks { id }, Ok(tasks), asked_segments),
        asked_segments matches Progress::Ask(counting, _) && resumes_to(counting, Ok(segments), asked_read),
        asked_read matches Progress::Ask(reading, _) && resumes_to(reading, Ok(doc), asked_delete),
        asked_delete matches Progress::Ask(deleting, _) && resumes_to(deleting, Ok(deleted), ended),
    ensures
        asked_read matches Progress::Ask(_, StoreRequest::Get { id: g }) && g == id,
        asked_delete matches Progress::Ask(_, StoreRequest::Delete { id: d, revision })
            && d == id && revision_of(doc) == Some(revision),
        ended matches Progress::Finished(Ok(Outcome::Done)),
{
}

} // verus!
