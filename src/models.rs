use vstd::prelude::*;

verus! {

/// Largest sub-second part a timestamp may hold: a leap second is written as
/// a second whose fraction runs past one full second.
pub const MAX_NANOS: u32 = 1_999_999_999;

/// A UTC instant: whole seconds since the Unix epoch and the nanoseconds past
/// that second. Timestamps order first by seconds, then by nanoseconds.
#[derive(Clone, Copy, Debug, PartialEq, Eq, PartialOrd, Ord, Hash)]
pub struct Timestamp {
    pub secs: i64,
    pub nanos: u32,
}

impl Timestamp {
    /// The sub-second part is in range.
    pub open spec fn wf(self) -> bool {
        self.nanos <= MAX_NANOS
    }

    /// `self` is not later than `other`.
    pub open spec fn spec_le(self, other: Timestamp) -> bool {
        self.secs < other.secs || (self.secs == other.secs && self.nanos <= other.nanos)
    }

    /// Builds a timestamp from its parts; `None` when the sub-second part is
    /// out of range.
    pub fn from_parts(secs: i64, nanos: u32) -> (r: Option<Timestamp>)
        ensures
            nanos <= MAX_NANOS <==> r.is_some(),
            r matches Some(t) ==> t.secs == secs && t.nanos == nanos && t.wf(),
    {
        if nanos <= MAX_NANOS {
            Some(Timestamp { secs, nanos })
        } else {
            None
        }
    }

    /// `self` is not later than `other`.
    pub fn is_not_after(&self, other: &Timestamp) -> (r: bool)
        ensures
            r == self.spec_le(*other),
    {
        self.secs < other.secs || (self.secs == other.secs && self.nanos <= other.nanos)
    }

    /// Relies on chrono's `Utc::now`, read back through `DateTime::timestamp`
    /// and `DateTime::timestamp_subsec_nanos`. The clock is read as a duration
    /// since the Unix epoch, so the seconds are not negative and the fraction
    /// is below one second. (chrono panics if the system clock is set before
    /// the epoch.)
    #[verifier::external_body]
    pub(crate) fn now() -> (r: Timestamp)
        ensures
            r.secs >= 0,
            r.nanos < 1_000_000_000,
    {
        let t = chrono::Utc::now();
        Timestamp { secs: t.timestamp(), nanos: t.timestamp_subsec_nanos() }
    }
}

/// What a task is, as the contracts see it.
pub struct TaskView {
    pub title: Seq<char>,
    pub completed: bool,
    pub created_at: Timestamp,
}

/// One to-do item. Its creation time is set once and never changed; its
/// completion flag only ever goes from false to true.
#[derive(Clone, Debug)]
pub struct Task {
    pub title: String,
    pub completed: bool,
    pub created_at: Timestamp,
}

impl View for Task {
    type V = TaskView;

    open spec fn view(&self) -> TaskView {
        TaskView { title: self.title@, completed: self.completed, created_at: self.created_at }
    }
}

impl Task {
    /// A task that is not completed, with the given title, created at the
    /// current time. Any title is accepted, the empty one too.
    pub fn new(title: String) -> (r: Task)
        ensures
            r.title@ == title@,
            !r.completed,
            r.created_at.wf(),
            r.created_at.secs >= 0,
    {
        Task::new_at(title, Timestamp::now())
    }

    /// A task that is not completed, with the given title, created at `now`.
    pub fn new_at(title: String, now: Timestamp) -> (r: Task)
        ensures
            r.title@ == title@,
            !r.completed,
            r.created_at == now,
    {
        Task { title, completed: false, created_at: now }
    }

    /// A task equal to this one in every field.
    pub fn duplicate(&self) -> (r: Task)
        ensures
            r@ == self@,
    {
        Task { title: self.title.clone(), completed: self.completed, created_at: self.created_at }
    }
}

} // verus!
