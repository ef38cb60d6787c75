use vstd::prelude::*;
use crate::task::{now, status_code, status_of_code, Task, TaskStatus, TaskV, Timestamp};

verus! {

/// A point in time as the wire carries it.
#[derive(Clone, Copy, Debug, PartialEq, Eq, Structural)]
pub struct WireTimestamp {
    pub seconds: i64,
    pub nanos: i32,
}

/// A task as the wire carries it: the status is an integer code and the
/// creation date may be absent.
#[derive(Clone, Debug, PartialEq, Eq)]
pub struct WireTask {
    pub id: String,
    pub data: Vec<u8>,
    pub creation_date: Option<WireTimestamp>,
    pub status: i32,
    pub channel: String,
}

/// A request to submit `data` to `channel`.
#[derive(Clone, Debug, PartialEq, Eq)]
pub struct AddTaskRequest {
    pub channel: String,
    pub data: Vec<u8>,
}

/// A request to follow the tasks of `channel` that reach the status coded by `status`.
#[derive(Clone, Debug, PartialEq, Eq)]
pub struct GetTaskRequest {
    pub channel: String,
    pub status: i32,
}

/// A request to move task `id` to the status coded by `status`, published on `channel`.
#[derive(Clone, Debug, PartialEq, Eq)]
pub struct UpdateTaskRequest {
    pub channel: String,
    pub id: String,
    pub status: i32,
}

/// What a wire task holds, as mathematical values.
pub struct WireTaskV {
    pub id: Seq<char>,
    pub data: Seq<u8>,
    pub creation_date: Option<WireTimestamp>,
    pub status: i32,
    pub channel: Seq<char>,
}

impl View for WireTask {
    type V = WireTaskV;

    open spec fn view(&self) -> WireTaskV {
        WireTaskV {
            id: self.id@,
            data: self.data@,
            creation_date: self.creation_date,
            status: self.status,
            channel: self.channel@,
        }
    }
}

/// The wire form of a timestamp; the fraction is carried as a signed integer.
pub open spec fn wire_of_timestamp(t: Timestamp) -> WireTimestamp {
    WireTimestamp { seconds: t.seconds, nanos: t.nanos as i32 }
}

/// The timestamp that a wire timestamp carries.
pub open spec fn timestamp_of_wire(w: WireTimestamp) -> Timestamp {
    Timestamp { seconds: w.seconds, nanos: w.nanos as u32 }
}

/// The wire form of a task.
pub open spec fn wire_of_task(t: TaskV) -> WireTaskV {
    WireTaskV {
        id: t.id,
        data: t.data,
        creation_date: Some(wire_of_timestamp(t.creation_date)),
        status: status_code(t.status),
        channel: t.channel,
    }
}

/// The task that a wire task carries, given the date to use where the wire has none.
pub open spec fn task_of_wire(w: WireTaskV, fallback: Timestamp) -> TaskV {
    TaskV {
        id: w.id,
        data: w.data,
        creation_date: match w.creation_date {
            Some(d) => timestamp_of_wire(d),
            None => fallback,
        },
        status: status_of_code(w.status),
        channel: w.channel,
    }
}

/// Encoding a task for the wire and decoding it again gives the same task.
pub proof fn lemma_wire_round_trip(t: TaskV, fallback: Timestamp)
    ensures
        task_of_wire(wire_of_task(t), fallback) == t,
{
    let n = t.creation_date.nanos;
    assert((n as i32) as u32 == n) by (bit_vector);
}

/// An integer that codes no status decodes as `Pending`.
pub proof fn lemma_unknown_status_is_pending(w: WireTaskV, fallback: Timestamp)
    requires
        w.status < 0 || w.status > 4,
    ensures
        task_of_wire(w, fallback).status == TaskStatus::Pending,
{
}

impl Task {
    /// The wire form of the task.
    pub fn to_wire(&self) -> (r: WireTask)
        ensures
            r@ == wire_of_task(self@),
    {
        let data = self.data.clone();
        assert(data@ =~= self.data@);
        WireTask {
            id: self.id.clone(),
            data,
            creation_date: Some(
                WireTimestamp {
                    seconds: self.creation_date.seconds,
                    nanos: self.creation_date.nanos as i32,
                },
            ),
            status: i32::from(self.status),
            channel: self.channel.clone(),
        }
    }

    /// The task that `w` carries, dated `fallback` where the wire has no date.
    pub fn from_wire_or(w: WireTask, fallback: Timestamp) -> (r: Task)
        ensures
            r@ == task_of_wire(w@, fallback),
    {
        let creation_date = match w.creation_date {
            Some(d) => Timestamp { seconds: d.seconds, nanos: d.nanos as u32 },
            None => fallback,
        };
        Task {
            id: w.id,
            data: w.data,
            creation_date,
            status: TaskStatus::from(w.status),
            channel: w.channel,
        }
    }

    /// The task that `w` carries; where the wire has no date it is dated now.
    pub fn from_wire(w: WireTask) -> (r: Task)
        ensures
            r@ == task_of_wire(w@, r.creation_date),
            w.creation_date is None ==> r.creation_date.seconds >= 0 && r.creation_date.nanos
                < 1_000_000_000,
    {
        match w.creation_date {
            Some(_) => {
                let d = Timestamp { seconds: 0, nanos: 0 };
                Task::from_wire_or(w, d)
            },
            None => Task::from_wire_or(w, now()),
        }
    }
}

} // verus!
