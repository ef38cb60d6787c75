use vstd::prelude::*;
use crate::task::{fresh_id, is_uuid_v4_text, now, Task, TaskStatus, TaskV, Timestamp};

verus! {

/// flume's sending handle of a channel, carried through opaque.
#[verifier::external_type_specification]
#[verifier::external_body]
#[verifier::reject_recursive_types(T)]
pub struct ExSender<T>(flume::Sender<T>);

/// flume's receiving handle of a channel, carried through opaque.
#[verifier::external_type_specification]
#[verifier::external_body]
#[verifier::reject_recursive_types(T)]
pub struct ExReceiver<T>(flume::Receiver<T>);

/// The channel that a sending handle belongs to: two handles have the same
/// one exactly when flume's `same_channel` holds of them.
pub uninterp spec fn sender_channel(s: flume::Sender<Task>) -> int;

/// The channel that a receiving handle belongs to, as for `sender_channel`.
pub uninterp spec fn receiver_channel(r: flume::Receiver<Task>) -> int;

/// The bound that the channel of a sending handle was made with; `None` for
/// an unbounded channel.
pub uninterp spec fn sender_capacity(s: flume::Sender<Task>) -> Option<usize>;

/// Relies on flume::unbounded: a new unbounded channel, and a sending and a
/// receiving handle on it.
#[verifier::external_body]
fn unbounded_slot() -> (r: (flume::Sender<Task>, flume::Receiver<Task>))
    ensures
        sender_channel(r.0) == receiver_channel(r.1),
        sender_capacity(r.0) is None,
{
    flume::unbounded()
}

/// Relies on flume's `Clone` for `Sender`: another handle on the same channel.
#[verifier::external_body]
fn clone_sender(s: &flume::Sender<Task>) -> (r: flume::Sender<Task>)
    ensures
        sender_channel(r) == sender_channel(*s),
        sender_capacity(r) == sender_capacity(*s),
{
    s.clone()
}

/// Relies on flume's `Clone` for `Receiver`: another competing consumer of
/// the same channel.
#[verifier::external_body]
fn clone_receiver(r: &flume::Receiver<Task>) -> (c: flume::Receiver<Task>)
    ensures
        receiver_channel(c) == receiver_channel(*r),
{
    r.clone()
}

/// Relies on flume::Sender::send: on an unbounded channel it does not block,
/// and it fails only once every receiving handle (or every sending handle) of
/// the channel is gone, which never happens while `receiver` is alive. flume
/// makes no handle of a channel after its last one of a kind is dropped.
#[verifier::external_body]
pub(crate) fn publish(sender: &flume::Sender<Task>, receiver: &flume::Receiver<Task>, t: Task) -> (r:
    Result<(), Task>)
    requires
        sender_capacity(*sender) is None,
        sender_channel(*sender) == receiver_channel(*receiver),
    ensures
        r is Ok,
{
    let _alive = receiver;
    sender.send(t).map_err(|e| e.into_inner())
}

/// Why an operation of the queue failed.
#[derive(Clone, Copy, Debug, PartialEq, Eq, Structural)]
pub enum QueueError {
    /// No task has the given id.
    NotFound,
    /// A transition was refused; the lifecycle accepts every transition, so this is not raised.
    Conflict,
    /// The shared state could not be used, or no unused id could be drawn.
    Internal,
}

impl QueueError {
    /// A short description of the error.
    pub fn message(&self) -> (r: &'static str) {
        match self {
            QueueError::NotFound => "task not found",
            QueueError::Conflict => "transition refused",
            QueueError::Internal => "internal error",
        }
    }
}

/// A copy of a task handed to the fan-out slot of a channel and a status.
pub struct Publication {
    pub channel: Seq<char>,
    pub status: TaskStatus,
    pub task: TaskV,
}

/// The fan-out slot of one channel and one status.
struct Slot {
    channel: String,
    status: TaskStatus,
    sender: flume::Sender<Task>,
    receiver: flume::Receiver<Task>,
}

/// The task registry, the fan-out slots, and every id handed out so far.
pub struct Queue {
    tasks: Vec<Task>,
    slots: Vec<Slot>,
    ids: Vec<String>,
    published: Ghost<Seq<Publication>>,
}

/// What a queue holds: the registered tasks in order of submission, the keys
/// of the slots made so far and the flume channel behind each, every id
/// handed out in order, and every publication made through the queue.
pub struct QueueV {
    pub tasks: Seq<TaskV>,
    pub slots: Seq<(Seq<char>, TaskStatus)>,
    pub queues: Seq<int>,
    pub issued: Seq<Seq<char>>,
    pub published: Seq<Publication>,
}

/// The tasks of `ts` that belong to `channel` and have `status`, in order.
pub open spec fn select(ts: Seq<TaskV>, channel: Seq<char>, status: TaskStatus) -> Seq<TaskV>
    decreases ts.len(),
{
    if ts.len() == 0 {
        Seq::empty()
    } else {
        let rest = select(ts.drop_last(), channel, status);
        if ts.last().channel == channel && ts.last().status == status {
            rest.push(ts.last())
        } else {
            rest
        }
    }
}

/// Some task of `ts` has id `id`.
pub open spec fn has_id(ts: Seq<TaskV>, id: Seq<char>) -> bool {
    exists|i: int| 0 <= i < ts.len() && #[trigger] ts[i].id == id
}

/// `t` with its status set to `status`.
pub open spec fn with_status(t: TaskV, status: TaskStatus) -> TaskV {
    TaskV { status, ..t }
}

/// `post` is `pre` after a submit of `data` to `channel` that returned `id`:
/// one pending task with an id that no task of `pre` has is appended.
pub open spec fn submitted(
    pre: Seq<TaskV>,
    post: Seq<TaskV>,
    channel: Seq<char>,
    data: Seq<u8>,
    id: Seq<char>,
) -> bool {
    &&& !has_id(pre, id)
    &&& post.len() == pre.len() + 1
    &&& post.drop_last() == pre
    &&& post.last().id == id
    &&& post.last().data == data
    &&& post.last().channel == channel
    &&& post.last().status == TaskStatus::Pending
}

/// `post` is `pre` after the task at `i` moved to `status`: changed in place,
/// or removed when the status is `Delete`.
pub open spec fn moved(pre: Seq<TaskV>, post: Seq<TaskV>, i: int, status: TaskStatus) -> bool {
    &&& 0 <= i < pre.len()
    &&& if status == TaskStatus::Delete {
        post == pre.remove(i)
    } else {
        post == pre.update(i, with_status(pre[i], status))
    }
}

/// `post` is `pre` where the slot `key` was there already, or was added last.
pub open spec fn slot_made(pre: QueueV, post: QueueV, key: (Seq<char>, TaskStatus)) -> bool {
    &&& pre.slots.contains(key) ==> post.slots == pre.slots && post.queues == pre.queues
    &&& !pre.slots.contains(key) ==> post.slots == pre.slots.push(key) && post.queues.drop_last()
        == pre.queues
}

/// The slot `key` of `v` is there, and its channel is `q`.
pub open spec fn slot_queue(v: QueueV, key: (Seq<char>, TaskStatus), q: int) -> bool {
    exists|k: int| 0 <= k < v.slots.len() && v.slots[k] == key && #[trigger] v.queues[k] == q
}

pub open spec fn task_views(ts: Seq<Task>) -> Seq<TaskV> {
    ts.map_values(|t: Task| t@)
}

impl QueueV {
    /// Ids handed out are unique and include the id of every registered task,
    /// no registered task has status `Delete`, no two slots share a key, and
    /// each slot has its channel.
    pub open spec fn wf(self) -> bool {
        &&& forall|i: int, j: int|
            0 <= i < self.tasks.len() && 0 <= j < self.tasks.len() && i != j
                ==> #[trigger] self.tasks[i].id != #[trigger] self.tasks[j].id
        &&& forall|i: int| 0 <= i < self.tasks.len() ==> #[trigger] self.tasks[i].status != TaskStatus::Delete
        &&& forall|i: int, j: int|
            0 <= i < self.slots.len() && 0 <= j < self.slots.len() && i != j
                ==> #[trigger] self.slots[i] != #[trigger] self.slots[j]
        &&& self.queues.len() == self.slots.len()
        &&& forall|i: int, j: int|
            0 <= i < self.issued.len() && 0 <= j < self.issued.len() && i != j
                ==> #[trigger] self.issued[i] != #[trigger] self.issued[j]
        &&& forall|i: int| 0 <= i < self.tasks.len() ==> self.issued.contains(#[trigger] self.tasks[i].id)
    }
}

impl View for Queue {
    type V = QueueV;

    closed spec fn view(&self) -> QueueV {
        QueueV {
            tasks: task_views(self.tasks@),
            slots: self.slots@.map_values(|s: Slot| (s.channel@, s.status)),
            queues: self.slots@.map_values(|s: Slot| sender_channel(s.sender)),
            issued: self.ids@.map_values(|s: String| s@),
            published: self.published@,
        }
    }
}

/// How many ids a submit draws before it gives up on finding one that was
/// never handed out.
const ID_ATTEMPTS: u32 = 8;

/// `post` is `pre` after the task with id `id` moved to `status` and a copy
/// of it, with the new status, was published on `channel`.
pub open spec fn updated(pre: QueueV, post: QueueV, channel: Seq<char>, id: Seq<char>, status: TaskStatus) -> bool {
    &&& post.issued == pre.issued
    &&& exists|i: int|
        0 <= i < pre.tasks.len() && pre.tasks[i].id == id && #[trigger] moved(pre.tasks, post.tasks, i, status)
            && post.published == pre.published.push(
            Publication { channel, status, task: with_status(pre.tasks[i], status) },
        )
}

impl Queue {
    /// The queue is well formed.
    pub open spec fn wf(&self) -> bool {
        self@.wf() && self.handles_sound()
    }

    /// Each slot holds both ends of one unbounded channel.
    pub closed spec fn handles_sound(&self) -> bool {
        forall|i: int|
            0 <= i < self.slots@.len() ==> {
                &&& receiver_channel(#[trigger] self.slots@[i].receiver) == sender_channel(
                    self.slots@[i].sender,
                )
                &&& sender_capacity(self.slots@[i].sender) is None
            }
    }

    /// An empty queue: no tasks, no slots, no id handed out.
    pub fn new() -> (r: Queue)
        ensures
            r.wf(),
            r@.tasks.len() == 0,
            r@.slots.len() == 0,
            r@.issued.len() == 0,
            r@.published.len() == 0,
    {
        let r = Queue { tasks: Vec::new(), slots: Vec::new(), ids: Vec::new(), published: Ghost(Seq::empty()) };
        assert(r@.tasks =~= Seq::<TaskV>::empty());
        assert(r@.slots =~= Seq::<(Seq<char>, TaskStatus)>::empty());
        assert(r@.queues =~= Seq::<int>::empty());
        assert(r@.issued =~= Seq::<Seq<char>>::empty());
        r
    }

    /// The index of the slot of `channel` and `status`, made first if there is none.
    fn slot_index(&mut self, channel: &String, status: TaskStatus) -> (i: usize)
        requires
            old(self).wf(),
        ensures
            final(self).wf(),
            final(self)@.tasks == old(self)@.tasks,
            final(self)@.issued == old(self)@.issued,
            final(self)@.published == old(self)@.published,
            i < final(self)@.slots.len(),
            final(self)@.slots[i as int] == (channel@, status),
            slot_made(old(self)@, final(self)@, (channel@, status)),
            sender_channel(final(self).slots@[i as int].sender) == final(self)@.queues[i as int],
            receiver_channel(final(self).slots@[i as int].receiver) == final(self)@.queues[i as int],
            sender_capacity(final(self).slots@[i as int].sender) is None,
    {
        let mut i: usize = 0;
        while i < self.slots.len()
            invariant
                *self == *old(self),
                self.wf(),
                i <= self.slots.len(),
                forall|j: int| 0 <= j < i ==> self@.slots[j] != (channel@, status),
            decreases self.slots.len() - i,
        {
            if self.slots[i].channel == *channel && self.slots[i].status == status {
                assert(self@.slots[i as int] == (channel@, status));
                assert(receiver_channel(self.slots@[i as int].receiver) == sender_channel(self.slots@[i as int].sender));
                return i;
            }
            i += 1;
        }
        assert(!self@.slots.contains((channel@, status)));
        let (sender, receiver) = unbounded_slot();
        self.slots.push(Slot { channel: channel.clone(), status, sender, receiver });
        assert(self@.slots =~= old(self)@.slots.push((channel@, status)));
        assert(self@.queues.drop_last() =~= old(self)@.queues);
        assert(self@.tasks =~= old(self)@.tasks);
        assert(self@.issued =~= old(self)@.issued);
        assert(receiver_channel(self.slots@[i as int].receiver) == sender_channel(self.slots@[i as int].sender));
        assert(self.handles_sound()) by {
            assert forall|j: int| 0 <= j < self.slots@.len() implies {
                &&& receiver_channel(#[trigger] self.slots@[j].receiver) == sender_channel(
                    self.slots@[j].sender,
                )
                &&& sender_capacity(self.slots@[j].sender) is None
            } by {
                if j < i {
                    assert(self.slots@[j] == old(self).slots@[j]);
                }
            }
        }
        i
    }

    /// The index of the task with id `id`, if there is one.
    fn find_task(&self, id: &String) -> (r: Option<usize>)
        ensures
            r is None <==> !has_id(self@.tasks, id@),
            r matches Some(i) ==> i < self@.tasks.len() && self@.tasks[i as int].id == id@,
    {
        let mut i: usize = 0;
        while i < self.tasks.len()
            invariant
                i <= self.tasks.len(),
                forall|j: int| 0 <= j < i ==> self@.tasks[j].id != id@,
            decreases self.tasks.len() - i,
        {
            if self.tasks[i].id == *id {
                assert(self@.tasks[i as int].id == id@);
                return Some(i);
            }
            i += 1;
        }
        None
    }

    /// Whether `id` was ever handed out by this queue.
    fn is_issued(&self, id: &String) -> (r: bool)
        ensures
            r == self@.issued.contains(id@),
    {
        let mut i: usize = 0;
        while i < self.ids.len()
            invariant
                i <= self.ids.len(),
                forall|j: int| 0 <= j < i ==> self@.issued[j] != id@,
            decreases self.ids.len() - i,
        {
            if self.ids[i] == *id {
                assert(self@.issued[i as int] == id@);
                return true;
            }
            i += 1;
        }
        false
    }

    /// Submits `data` to `chan_name` under the drawn `id` and `creation_date`:
    /// where `id` was never handed out, registers a pending task with them,
    /// publishes a copy of it to the slot of the channel and `Pending`, and
    /// returns the id; where it was, changes nothing and fails.
    pub fn add_task_with(
        &mut self,
        chan_name: &str,
        data: Vec<u8>,
        id: String,
        creation_date: Timestamp,
    ) -> (r: Result<String, QueueError>)
        requires
            old(self).wf(),
        ensures
            final(self).wf(),
            old(self)@.issued.contains(id@) ==> r == Err::<String, QueueError>(QueueError::Internal)
                && final(self)@ == old(self)@,
            !old(self)@.issued.contains(id@) ==> {
                &&& r matches Ok(x) && x@ == id@
                &&& final(self)@.tasks == old(self)@.tasks.push(
                    TaskV {
                        id: id@,
                        data: data@,
                        creation_date,
                        status: TaskStatus::Pending,
                        channel: chan_name@,
                    },
                )
                &&& submitted(old(self)@.tasks, final(self)@.tasks, chan_name@, data@, id@)
                &&& final(self)@.issued == old(self)@.issued.push(id@)
                &&& final(self)@.published == old(self)@.published.push(
                    Publication {
                        channel: chan_name@,
                        status: TaskStatus::Pending,
                        task: final(self)@.tasks.last(),
                    },
                )
                &&& slot_made(old(self)@, final(self)@, (chan_name@, TaskStatus::Pending))
            },
    {
        if self.is_issued(&id) {
            return Err(QueueError::Internal);
        }
        proof {
            if has_id(self@.tasks, id@) {
                let k = choose|k: int| 0 <= k < self@.tasks.len() && #[trigger] self@.tasks[k].id == id@;
                assert(self@.issued.contains(self@.tasks[k].id));
            }
        }
        let channel = chan_name.to_owned();
        let i = self.slot_index(&channel, TaskStatus::Pending);
        let task = Task {
            id: id.clone(),
            data,
            creation_date,
            status: TaskStatus::Pending,
            channel,
        };
        // The queue is held exclusively for the whole call, so the order of
        // publication and registration cannot be observed by other callers.
        let copy = task.snapshot();
        let _ = publish(&self.slots[i].sender, &self.slots[i].receiver, copy);
        let ghost tv = task@;
        let ghost pre = self@;
        let key = id.clone();
        self.tasks.push(task);
        self.ids.push(key);
        self.published = Ghost(
            self.published@.push(
                Publication { channel: chan_name@, status: TaskStatus::Pending, task: tv },
            ),
        );
        proof {
            assert(self@.tasks =~= pre.tasks.push(tv));
            assert(self@.tasks.drop_last() =~= pre.tasks);
            assert(self@.issued =~= pre.issued.push(id@));
            assert(self@.slots =~= pre.slots);
            assert(self@.queues =~= pre.queues);
            assert forall|a: int| 0 <= a < self@.tasks.len() implies self@.issued.contains(
                #[trigger] self@.tasks[a].id,
            ) by {
                if a < pre.tasks.len() {
                    let b = choose|b: int| 0 <= b < pre.issued.len() && pre.issued[b] == pre.tasks[a].id;
                    assert(self@.issued[b] == pre.issued[b]);
                } else {
                    assert(self@.issued[pre.issued.len() as int] == id@);
                }
            }
        }
        Ok(id)
    }

    /// Submits `data` to `chan_name`: draws an id that was never handed out
    /// and the current time, then does as `add_task_with`. It fails only where
    /// every one of a few drawn ids had been handed out already, which cannot
    /// happen before the first id is handed out.
    pub fn add_task(&mut self, chan_name: &str, data: Vec<u8>) -> (r: Result<String, QueueError>)
        requires
            old(self).wf(),
        ensures
            final(self).wf(),
            old(self)@.issued.len() == 0 ==> r is Ok,
            match r {
                Ok(id) => {
                    &&& submitted(old(self)@.tasks, final(self)@.tasks, chan_name@, data@, id@)
                    &&& is_uuid_v4_text(id@)
                    &&& final(self)@.tasks.last().creation_date.seconds >= 0
                    &&& final(self)@.tasks.last().creation_date.nanos < 1_000_000_000
                    &&& !old(self)@.issued.contains(id@)
                    &&& final(self)@.issued == old(self)@.issued.push(id@)
                    &&& final(self)@.published == old(self)@.published.push(
                        Publication {
                            channel: chan_name@,
                            status: TaskStatus::Pending,
                            task: final(self)@.tasks.last(),
                        },
                    )
                    &&& slot_made(old(self)@, final(self)@, (chan_name@, TaskStatus::Pending))
                },
                Err(e) => e == QueueError::Internal && final(self)@ == old(self)@,
            },
    {
        let mut id = fresh_id();
        let mut attempts: u32 = 1;
        while self.is_issued(&id) && attempts < ID_ATTEMPTS
            invariant
                *self == *old(self),
                is_uuid_v4_text(id@),
            decreases ID_ATTEMPTS - attempts,
        {
            id = fresh_id();
            attempts += 1;
        }
        if self.is_issued(&id) {
            return Err(QueueError::Internal);
        }
        let creation_date = now();
        let r = self.add_task_with(chan_name, data, id, creation_date);
        r
    }

    /// The sending and receiving handles of the slot of `chan_name` and
    /// `status`, made first if there is none. Both are on the slot's own
    /// unbounded channel; every receiving handle is a competing consumer.
    pub fn get_chan(&mut self, chan_name: &str, status: TaskStatus) -> (r: Result<
        (flume::Sender<Task>, flume::Receiver<Task>),
        QueueError,
    >)
        requires
            old(self).wf(),
        ensures
            final(self).wf(),
            final(self)@.tasks == old(self)@.tasks,
            final(self)@.issued == old(self)@.issued,
            final(self)@.published == old(self)@.published,
            slot_made(old(self)@, final(self)@, (chan_name@, status)),
            r matches Ok((s, c)) && {
                &&& slot_queue(final(self)@, (chan_name@, status), sender_channel(s))
                &&& receiver_channel(c) == sender_channel(s)
                &&& sender_capacity(s) is None
            },
    {
        let channel = chan_name.to_owned();
        let i = self.slot_index(&channel, status);
        let sender = clone_sender(&self.slots[i].sender);
        let receiver = clone_receiver(&self.slots[i].receiver);
        assert(self@.queues[i as int] == sender_channel(sender));
        Ok((sender, receiver))
    }

    /// Moves the task with id `task_id` to `status`: publishes a copy with the
    /// new status to the slot of `chan_name` and `status`, then records the
    /// status, or removes the task when the status is `Delete`. The task is
    /// found by its id alone; `chan_name` only routes the publication.
    pub fn update_task_status(&mut self, chan_name: &str, task_id: &str, status: TaskStatus) -> (r:
        Result<(), QueueError>)
        requires
            old(self).wf(),
        ensures
            final(self).wf(),
            r is Ok <==> has_id(old(self)@.tasks, task_id@),
            r is Ok ==> updated(old(self)@, final(self)@, chan_name@, task_id@, status) && slot_made(
                old(self)@,
                final(self)@,
                (chan_name@, status),
            ),
            r is Err ==> r == Err::<(), QueueError>(QueueError::NotFound) && final(self)@ == old(self)@,
    {
        let id = task_id.to_owned();
        let k = match self.find_task(&id) {
            Some(k) => k,
            None => {
                return Err(QueueError::NotFound);
            },
        };
        let channel = chan_name.to_owned();
        let i = self.slot_index(&channel, status);
        let ghost prior = self@.tasks[k as int];
        let mut copy = self.tasks[k].snapshot();
        copy.status = status;
        let _ = publish(&self.slots[i].sender, &self.slots[i].receiver, copy);
        let ghost pre = self@;
        if status == TaskStatus::Delete {
            self.tasks.remove(k);
            proof {
                assert(self@.tasks =~= pre.tasks.remove(k as int));
                assert forall|a: int| 0 <= a < self@.tasks.len() implies self@.issued.contains(
                    #[trigger] self@.tasks[a].id,
                ) by {
                    if a < k {
                        assert(self@.tasks[a] == pre.tasks[a]);
                    } else {
                        assert(self@.tasks[a] == pre.tasks[a + 1]);
                    }
                }
            }
        } else {
            let mut t = self.tasks[k].snapshot();
            t.status = status;
            self.tasks.set(k, t);
            proof {
                assert(self@.tasks =~= pre.tasks.update(k as int, with_status(prior, status)));
                assert forall|a: int| 0 <= a < self@.tasks.len() implies self@.issued.contains(
                    #[trigger] self@.tasks[a].id,
                ) by {
                    assert(self@.tasks[a].id == pre.tasks[a].id);
                }
            }
        }
        self.published = Ghost(
            self.published@.push(
                Publication { channel: chan_name@, status, task: with_status(prior, status) },
            ),
        );
        proof {
            assert(moved(old(self)@.tasks, self@.tasks, k as int, status));
        }
        Ok(())
    }

    /// The registered tasks of `chan_name` that have `status`, in order of submission.
    pub fn get_tasks(&self, chan_name: &str, status: TaskStatus) -> (r: Vec<Task>)
        ensures
            task_views(r@) == select(self@.tasks, chan_name@, status),
    {
        let channel = chan_name.to_owned();
        let mut res: Vec<Task> = Vec::new();
        let mut i: usize = 0;
        while i < self.tasks.len()
            invariant
                i <= self.tasks.len(),
                channel@ == chan_name@,
                task_views(res@) == select(self@.tasks.subrange(0, i as int), chan_name@, status),
            decreases self.tasks.len() - i,
        {
            let ghost pre = res@;
            let ghost ts = self@.tasks.subrange(0, i as int + 1);
            assert(ts.drop_last() =~= self@.tasks.subrange(0, i as int));
            assert(ts.last() == self@.tasks[i as int]);
            if self.tasks[i].channel == channel && self.tasks[i].status == status {
                res.push(self.tasks[i].snapshot());
                assert(task_views(res@) =~= task_views(pre).push(self@.tasks[i as int]));
            }
            i += 1;
        }
        assert(self@.tasks.subrange(0, i as int) =~= self@.tasks);
        res
    }
}

/// A task is selected exactly when it is among `ts` and matches the channel
/// and the status.
pub proof fn lemma_select_contains(ts: Seq<TaskV>, channel: Seq<char>, status: TaskStatus, t: TaskV)
    ensures
        select(ts, channel, status).contains(t) <==> (ts.contains(t) && t.channel == channel
            && t.status == status),
    decreases ts.len(),
{
    if ts.len() > 0 {
        let init = ts.drop_last();
        lemma_select_contains(init, channel, status, t);
        assert(ts =~= init.push(ts.last()));
        if ts.contains(t) && t != ts.last() {
            let k = choose|k: int| 0 <= k < ts.len() && ts[k] == t;
            assert(k < init.len() && init[k] == t);
        }
        if init.contains(t) {
            let k = choose|k: int| 0 <= k < init.len() && init[k] == t;
            assert(ts[k] == t);
        }
        let rest = select(init, channel, status);
        if ts.last().channel == channel && ts.last().status == status {
            assert(rest.push(ts.last())[rest.len() as int] == ts.last());
            if rest.contains(t) {
                let k = choose|k: int| 0 <= k < rest.len() && rest[k] == t;
                assert(rest.push(ts.last())[k] == t);
            }
            if rest.push(ts.last()).contains(t) && t != ts.last() {
                let k = choose|k: int| 0 <= k < rest.len() + 1 && rest.push(ts.last())[k] == t;
                assert(rest[k] == t);
            }
        }
        assert(ts[ts.len() - 1] == ts.last());
    }
}

/// No selected task has an id that no task of `ts` has with the matching
/// channel and status.
proof fn lemma_select_has_id(ts: Seq<TaskV>, channel: Seq<char>, status: TaskStatus, id: Seq<char>)
    requires
        has_id(select(ts, channel, status), id),
    ensures
        exists|m: int|
            0 <= m < ts.len() && #[trigger] ts[m].id == id && ts[m].channel == channel && ts[m].status
                == status,
{
    let sel = select(ts, channel, status);
    let j = choose|j: int| 0 <= j < sel.len() && #[trigger] sel[j].id == id;
    lemma_select_contains(ts, channel, status, sel[j]);
    assert(sel.contains(sel[j]));
    let m = choose|m: int| 0 <= m < ts.len() && ts[m] == sel[j];
    assert(ts[m].id == id);
}

/// A submit keeps every task that was there, at the same place.
/// Each step of a run of operations keeps the ids handed out before it, in order.
pub open spec fn keeps_issued(pre: QueueV, post: QueueV) -> bool {
    &&& pre.issued.len() <= post.issued.len()
    &&& post.issued.subrange(0, pre.issued.len() as int) == pre.issued
}

/// A step that keeps the ids handed out keeps them over any stretch of steps.
proof fn lemma_run_keeps_issued(qs: Seq<QueueV>, j: int, k: int)
    requires
        forall|n: int| 0 <= n < qs.len() - 1 ==> #[trigger] keeps_issued(qs[n], qs[n + 1]),
        0 <= j <= k < qs.len(),
    ensures
        keeps_issued(qs[j], qs[k]),
    decreases k - j,
{
    if j == k {
        assert(qs[k].issued.subrange(0, qs[j].issued.len() as int) =~= qs[j].issued);
    } else {
        lemma_run_keeps_issued(qs, j, k - 1);
        let n = k - 1;
        assert(keeps_issued(qs[n], qs[n + 1]));
        assert(qs[k].issued.subrange(0, qs[j].issued.len() as int) =~= qs[k - 1].issued.subrange(
            0,
            qs[j].issued.len() as int,
        ));
    }
}

/// No id is handed out twice, whatever runs between two submits: in a run of
/// queue states `qs` where every step keeps the ids handed out (as every
/// operation of the queue does), a submit at step `j` that returned `a` and
/// one at a later step `k` that returned `b` returned different ids.
pub proof fn lemma_submitted_ids_distinct(qs: Seq<QueueV>, j: int, k: int, a: Seq<char>, b: Seq<char>)
    requires
        forall|n: int| 0 <= n < qs.len() - 1 ==> #[trigger] keeps_issued(qs[n], qs[n + 1]),
        0 <= j < k,
        k + 1 < qs.len(),
        qs[j + 1].issued == qs[j].issued.push(a),
        !qs[k].issued.contains(b),
    ensures
        a != b,
{
    lemma_run_keeps_issued(qs, j + 1, k);
    let n = qs[j].issued.len() as int;
    assert(qs[j + 1].issued[n] == a);
    assert(qs[k].issued.subrange(0, n + 1)[n] == qs[k].issued[n]);
    assert(qs[k].issued[n] == a);
}

/// Every operation that changes a queue keeps the ids it handed out.
pub proof fn lemma_operations_keep_issued(pre: QueueV, post: QueueV, id: Seq<char>)
    requires
        post.issued == pre.issued || post.issued == pre.issued.push(id),
    ensures
        keeps_issued(pre, post),
{
    assert(pre.issued.push(id).subrange(0, pre.issued.len() as int) =~= pre.issued);
    assert(pre.issued.subrange(0, pre.issued.len() as int) =~= pre.issued);
}

pub proof fn lemma_submit_then_list(
    pre: Seq<TaskV>,
    post: Seq<TaskV>,
    channel: Seq<char>,
    data: Seq<u8>,
    id: Seq<char>,
)
    requires
        submitted(pre, post, channel, data, id),
    ensures
        exists|t: TaskV|
            #[trigger] select(post, channel, TaskStatus::Pending).contains(t) && t.id == id && t.data
                == data && t.channel == channel && t.status == TaskStatus::Pending,
{
    lemma_select_contains(post, channel, TaskStatus::Pending, post.last());
    assert(post[post.len() - 1] == post.last());
}

/// After a task of `channel` moves to a status other than `Delete`, listing
/// the channel with the new status shows it, and listing it with the status
/// it had before, where that differs, does not.
pub proof fn lemma_update_then_list(
    pre: QueueV,
    post: QueueV,
    channel: Seq<char>,
    id: Seq<char>,
    status: TaskStatus,
)
    requires
        pre.wf(),
        updated(pre, post, channel, id, status),
        status != TaskStatus::Delete,
        forall|i: int| 0 <= i < pre.tasks.len() && #[trigger] pre.tasks[i].id == id ==> pre.tasks[i].channel == channel,
    ensures
        has_id(select(post.tasks, channel, status), id),
        forall|i: int|
            0 <= i < pre.tasks.len() && #[trigger] pre.tasks[i].id == id && pre.tasks[i].status != status
                ==> !has_id(select(post.tasks, channel, pre.tasks[i].status), id),
{
    let i = choose|i: int|
        0 <= i < pre.tasks.len() && pre.tasks[i].id == id && #[trigger] moved(pre.tasks, post.tasks, i, status)
            && post.published == pre.published.push(
            Publication { channel, status, task: with_status(pre.tasks[i], status) },
        );
    let t = post.tasks[i];
    assert(post.tasks.contains(t));
    lemma_select_contains(post.tasks, channel, status, t);
    let sel = select(post.tasks, channel, status);
    let j = choose|j: int| 0 <= j < sel.len() && sel[j] == t;
    assert(sel[j].id == id);
    assert forall|k: int|
        0 <= k < pre.tasks.len() && #[trigger] pre.tasks[k].id == id && pre.tasks[k].status != status
            implies !has_id(select(post.tasks, channel, pre.tasks[k].status), id) by {
        assert(k == i);
        if has_id(select(post.tasks, channel, pre.tasks[k].status), id) {
            lemma_select_has_id(post.tasks, channel, pre.tasks[k].status, id);
            let m = choose|m: int|
                0 <= m < post.tasks.len() && #[trigger] post.tasks[m].id == id && post.tasks[m].channel
                    == channel && post.tasks[m].status == pre.tasks[k].status;
            assert(pre.tasks[m].id == id);
        }
    }
}

/// After a task is deleted no listing shows its id, the id is unknown to the
/// registry, so a further update of it finds nothing, and the id stays among
/// those handed out, so no later submit returns it.
pub proof fn lemma_delete_removes(pre: QueueV, post: QueueV, channel: Seq<char>, id: Seq<char>)
    requires
        pre.wf(),
        updated(pre, post, channel, id, TaskStatus::Delete),
    ensures
        !has_id(post.tasks, id),
        forall|ch: Seq<char>, s: TaskStatus| !has_id(#[trigger] select(post.tasks, ch, s), id),
        post.issued.contains(id),
{
    let i = choose|i: int|
        0 <= i < pre.tasks.len() && pre.tasks[i].id == id && #[trigger] moved(
            pre.tasks,
            post.tasks,
            i,
            TaskStatus::Delete,
        ) && post.published == pre.published.push(
            Publication { channel, status: TaskStatus::Delete, task: with_status(pre.tasks[i], TaskStatus::Delete) },
        );
    assert(pre.issued.contains(pre.tasks[i].id));
    assert forall|m: int| 0 <= m < post.tasks.len() implies #[trigger] post.tasks[m].id != id by {
        if m < i {
            assert(post.tasks[m] == pre.tasks[m]);
        } else {
            assert(post.tasks[m] == pre.tasks[m + 1]);
        }
    }
    assert forall|ch: Seq<char>, s: TaskStatus| !has_id(#[trigger] select(post.tasks, ch, s), id) by {
        if has_id(select(post.tasks, ch, s), id) {
            lemma_select_has_id(post.tasks, ch, s, id);
        }
    }
}

} // verus!
