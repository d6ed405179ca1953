//! What the gateway asks of the document store, and what the store answers.
use vstd::prelude::*;
use crate::error::{Error, is_database_error};
use crate::wire::WireValue;

verus! {

/// The two kinds of documents that the store holds.
#[derive(Clone, Copy, Debug, PartialEq, Eq, Structural)]
pub enum DocumentKind {
    Task,
    TimeSegment,
}

/// The type tag under which the store files a kind of document.
pub open spec fn kind_tag(k: DocumentKind) -> Seq<char> {
    match k {
        DocumentKind::Task => "task"@,
        DocumentKind::TimeSegment => "time-segment"@,
    }
}

impl DocumentKind {
    /// The type tag under which the store files this kind of document.
    pub fn tag(self) -> (r: &'static str)
        ensures
            r@ == kind_tag(self),
    {
        match self {
            DocumentKind::Task => "task",
            DocumentKind::TimeSegment => "time-segment",
        }
    }
}

/// One call into the document store.
#[derive(Debug)]
pub enum StoreRequest {
    /// Read one document.
    Get { id: u32 },
    /// Create a document under a new identifier.
    Create { id: u32, kind: DocumentKind, document: WireValue },
    /// Replace a document, if its revision is still `revision`.
    Update { id: u32, revision: String, kind: DocumentKind, document: WireValue },
    /// Delete a document, if its revision is still `revision`.
    Delete { id: u32, revision: String },
    /// List the tasks that reference a time segment.
    TasksForTimeSegment { time_segment_id: u32 },
    /// List every task.
    AllTasks,
    /// List every time segment together with its tasks.
    AllTasksPerTimeSegment,
    /// List every time segment.
    AllTimeSegments,
}

/// How a call into the store failed.
#[derive(Clone, Debug, PartialEq, Eq)]
pub enum StoreFailure {
    /// The document asked for does not exist.
    NotFound(String),
    /// Anything else, a stale revision among them.
    Failed(String),
}

/// The message that the store gave with a failure.
pub open spec fn failure_text(f: StoreFailure) -> Seq<char> {
    match f {
        StoreFailure::NotFound(m) => m@,
        StoreFailure::Failed(m) => m@,
    }
}

/// The Database error for a failed call, with the operation that was attempted.
pub fn store_error(context: &str, f: StoreFailure) -> (r: Error)
    ensures
        is_database_error(r, context@, failure_text(f)),
{
    match f {
        StoreFailure::NotFound(m) => Error::database(context, m),
        StoreFailure::Failed(m) => Error::database(context, m),
    }
}

} // verus!
