//! The entities that the store holds and the wire carries.
use vstd::prelude::*;

verus! {

/// An instant: whole seconds since 1970-01-01T00:00:00Z, and the nanoseconds
/// after that second.
#[derive(Clone, Copy, Debug, PartialEq, Eq, Structural)]
pub struct Timestamp {
    pub secs: i64,
    pub nanos: u32,
}

impl Timestamp {
    /// The instant `ms` milliseconds after 1970-01-01T00:00:00Z (before it, for
    /// a negative count), as the host clock reports it.
    pub fn from_unix_millis(ms: i64) -> (r: Timestamp)
        ensures
            r.secs as int * 1000 + r.nanos as int / 1_000_000 == ms as int,
            r.nanos as int % 1_000_000 == 0,
            r.nanos < 1_000_000_000,
    {
        let mut secs: i64 = ms / 1000;
        let mut rest: i64 = ms % 1000;
        if rest < 0 {
            secs = secs - 1;
            rest = rest + 1000;
        }
        Timestamp { secs, nanos: (rest as u32) * 1_000_000 }
    }
}

/// A non-negative span of time: whole seconds and the nanoseconds after them.
#[derive(Clone, Copy, Debug, PartialEq, Eq, Structural)]
pub struct Duration {
    pub secs: u32,
    pub nanos: u32,
}

impl Duration {
    /// Whether the span is a whole number of seconds.
    pub open spec fn is_whole(self) -> bool {
        self.nanos == 0
    }

    pub fn seconds(secs: u32) -> (r: Duration)
        ensures
            r == (Duration { secs, nanos: 0 }),
    {
        Duration { secs, nanos: 0 }
    }

    pub fn minutes(minutes: u32) -> (r: Duration)
        requires
            minutes * 60 <= u32::MAX,
        ensures
            r == (Duration { secs: (minutes * 60) as u32, nanos: 0 }),
    {
        Duration { secs: minutes * 60, nanos: 0 }
    }

    /// The span truncated toward zero to whole seconds.
    pub fn whole_seconds(self) -> (r: u32)
        ensures
            r == self.secs,
    {
        self.secs
    }
}

/// A request to create a task; the gateway assigns the identifier.
#[derive(Clone, Debug, PartialEq, Eq)]
pub struct NewTask {
    pub content: String,
    pub deadline: Timestamp,
    pub duration: Duration,
    pub importance: u32,
    pub time_segment_id: u32,
}

/// A stored task. `time_segment_id` names the time segment it belongs to.
#[derive(Clone, Debug, PartialEq, Eq)]
pub struct Task {
    pub id: u32,
    pub content: String,
    pub deadline: Timestamp,
    pub duration: Duration,
    pub importance: u32,
    pub time_segment_id: u32,
}

/// The task that a creation request becomes once it has the identifier `id`.
pub open spec fn task_from_new(id: u32, t: NewTask) -> Task {
    Task {
        id,
        content: t.content,
        deadline: t.deadline,
        duration: t.duration,
        importance: t.importance,
        time_segment_id: t.time_segment_id,
    }
}

impl Task {
    /// The task that `new_task` becomes with the identifier `id`.
    pub fn from_new(id: u32, new_task: NewTask) -> (r: Task)
        ensures
            r == task_from_new(id, new_task),
    {
        Task {
            id,
            content: new_task.content,
            deadline: new_task.deadline,
            duration: new_task.duration,
            importance: new_task.importance,
            time_segment_id: new_task.time_segment_id,
        }
    }

    /// An equal, separately owned task.
    pub fn duplicate(&self) -> (r: Task)
        ensures
            r == *self,
    {
        Task {
            id: self.id,
            content: self.content.clone(),
            deadline: self.deadline,
            duration: self.duration,
            importance: self.importance,
            time_segment_id: self.time_segment_id,
        }
    }
}

impl NewTask {
    /// An equal, separately owned request.
    pub fn duplicate(&self) -> (r: NewTask)
        ensures
            r == *self,
    {
        NewTask {
            content: self.content.clone(),
            deadline: self.deadline,
            duration: self.duration,
            importance: self.importance,
            time_segment_id: self.time_segment_id,
        }
    }
}

/// A half-open range of instants, `start` included and `end` excluded.
#[derive(Clone, Copy, Debug, PartialEq, Eq, Structural)]
pub struct DateRange {
    pub start: Timestamp,
    pub end: Timestamp,
}

/// A request to create a time segment; the gateway assigns the identifier.
#[derive(Clone, Debug, PartialEq, Eq)]
pub struct NewTimeSegment {
    pub name: String,
    pub ranges: Vec<DateRange>,
    pub start: Timestamp,
    pub period: Duration,
}

/// A named, recurring window of time: the `ranges` repeat every `period`
/// from `start`.
#[derive(Clone, Debug, PartialEq, Eq)]
pub struct TimeSegment {
    pub id: u32,
    pub name: String,
    pub ranges: Vec<DateRange>,
    pub start: Timestamp,
    pub period: Duration,
}

/// A task with the instant at which the scheduler placed it.
#[derive(Clone, Debug, PartialEq, Eq)]
pub struct ScheduledTask {
    pub task: Task,
    pub when: Timestamp,
}

/// Tasks in the order that the scheduling collaborator produced them.
#[derive(Clone, Debug, PartialEq, Eq)]
pub struct Schedule {
    pub tasks: Vec<ScheduledTask>,
}

} // verus!
