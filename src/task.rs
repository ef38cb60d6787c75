use vstd::prelude::*;

verus! {

/// Where a task stands in its lifecycle.
#[derive(Clone, Copy, Debug, PartialEq, Eq, Hash, Structural)]
pub enum TaskStatus {
    Pending,
    Running,
    Completed,
    Failed,
    Delete,
}

/// The integer that stands for a status on the wire.
pub open spec fn status_code(s: TaskStatus) -> i32 {
    match s {
        TaskStatus::Pending => 0,
        TaskStatus::Running => 1,
        TaskStatus::Completed => 2,
        TaskStatus::Failed => 3,
        TaskStatus::Delete => 4,
    }
}

/// The status that a wire integer stands for; an unknown integer reads as `Pending`.
pub open spec fn status_of_code(i: i32) -> TaskStatus {
    if i == 1 {
        TaskStatus::Running
    } else if i == 2 {
        TaskStatus::Completed
    } else if i == 3 {
        TaskStatus::Failed
    } else if i == 4 {
        TaskStatus::Delete
    } else {
        TaskStatus::Pending
    }
}

impl From<TaskStatus> for i32 {
    fn from(s: TaskStatus) -> (r: i32) {
        match s {
            TaskStatus::Pending => 0,
            TaskStatus::Running => 1,
            TaskStatus::Completed => 2,
            TaskStatus::Failed => 3,
            TaskStatus::Delete => 4,
        }
    }
}

impl vstd::std_specs::convert::FromSpecImpl<TaskStatus> for i32 {
    open spec fn obeys_from_spec() -> bool {
        true
    }

    open spec fn from_spec(s: TaskStatus) -> i32 {
        status_code(s)
    }
}

impl From<i32> for TaskStatus {
    fn from(i: i32) -> (r: TaskStatus) {
        match i {
            0 => TaskStatus::Pending,
            1 => TaskStatus::Running,
            2 => TaskStatus::Completed,
            3 => TaskStatus::Failed,
            4 => TaskStatus::Delete,
            _ => TaskStatus::Pending,
        }
    }
}

impl vstd::std_specs::convert::FromSpecImpl<i32> for TaskStatus {
    open spec fn obeys_from_spec() -> bool {
        true
    }

    open spec fn from_spec(i: i32) -> TaskStatus {
        status_of_code(i)
    }
}

/// Decoding the code of a status gives the status back.
pub proof fn lemma_status_code_round_trip(s: TaskStatus)
    ensures
        status_of_code(status_code(s)) == s,
{
}

/// A point in time: whole seconds since the Unix epoch and the fraction of
/// the second in nanoseconds.
#[derive(Clone, Copy, Debug, PartialEq, Eq, Structural)]
pub struct Timestamp {
    pub seconds: i64,
    pub nanos: u32,
}

/// A unit of work: opaque bytes with an id, a creation time, a status and the
/// channel it belongs to.
#[derive(Clone, Debug, PartialEq, Eq)]
pub struct Task {
    pub id: String,
    pub data: Vec<u8>,
    pub creation_date: Timestamp,
    pub status: TaskStatus,
    pub channel: String,
}

/// What a task holds, as mathematical values.
pub struct TaskV {
    pub id: Seq<char>,
    pub data: Seq<u8>,
    pub creation_date: Timestamp,
    pub status: TaskStatus,
    pub channel: Seq<char>,
}

impl View for Task {
    type V = TaskV;

    open spec fn view(&self) -> TaskV {
        TaskV {
            id: self.id@,
            data: self.data@,
            creation_date: self.creation_date,
            status: self.status,
            channel: self.channel@,
        }
    }
}

/// A lowercase hexadecimal digit.
pub open spec fn is_lower_hex(c: char) -> bool {
    ('0' <= c && c <= '9') || ('a' <= c && c <= 'f')
}

/// The hyphenated lowercase text of a version 4, variant 1 uuid: 36
/// characters, hyphens at 8, 13, 18 and 23, hexadecimal digits elsewhere, the
/// version digit `4` at 14 and a variant digit of `8`, `9`, `a` or `b` at 19.
pub open spec fn is_uuid_v4_text(s: Seq<char>) -> bool {
    &&& s.len() == 36
    &&& forall|i: int|
        0 <= i < 36 ==> if i == 8 || i == 13 || i == 18 || i == 23 {
            #[trigger] s[i] == '-'
        } else {
            is_lower_hex(s[i])
        }
    &&& s[14] == '4'
    &&& s[19] == '8' || s[19] == '9' || s[19] == 'a' || s[19] == 'b'
}

/// Relies on uuid::Uuid::new_v4 and its `Display`: a random version 4 uuid,
/// written hyphenated in lowercase. Which one is drawn is not known.
#[verifier::external_body]
pub(crate) fn fresh_id() -> (r: String)
    ensures
        is_uuid_v4_text(r@),
{
    uuid::Uuid::new_v4().to_string()
}

/// Relies on chrono::Utc::now, read back through `timestamp` and
/// `timestamp_subsec_nanos`: the current time, after the epoch (`now` panics
/// on a clock set before it), with the fraction of a second under one second.
#[verifier::external_body]
pub(crate) fn now() -> (r: Timestamp)
    ensures
        r.seconds >= 0,
        r.nanos < 1_000_000_000,
{
    let t = chrono::Utc::now();
    Timestamp { seconds: t.timestamp(), nanos: t.timestamp_subsec_nanos() }
}

impl Task {
    /// A new pending task of `channel` holding `data`, with a fresh id and the
    /// current time as its creation date.
    pub fn new(data: Vec<u8>, channel: String) -> (r: Task)
        ensures
            r.data@ == data@,
            r.channel@ == channel@,
            r.status == TaskStatus::Pending,
            is_uuid_v4_text(r.id@),
            r.creation_date.seconds >= 0,
            r.creation_date.nanos < 1_000_000_000,
    {
        Task { id: fresh_id(), data, creation_date: now(), status: TaskStatus::Pending, channel }
    }

    /// An independent copy of the task.
    pub fn snapshot(&self) -> (r: Task)
        ensures
            r@ == self@,
    {
        let data = self.data.clone();
        assert(data@ =~= self.data@);
        Task {
            id: self.id.clone(),
            data,
            creation_date: self.creation_date,
            status: self.status,
            channel: self.channel.clone(),
        }
    }
}

} // verus!
