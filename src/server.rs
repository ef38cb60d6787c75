use vstd::prelude::*;
use crate::pump::Subscription;
use crate::queue::{has_id, slot_made, slot_queue, submitted, updated, Queue, QueueError, QueueV};
use crate::task::{status_of_code, TaskStatus};
use crate::wire::{AddTaskRequest, GetTaskRequest, UpdateTaskRequest};

verus! {

/// The handler of the three remote operations, over one queue of its own.
pub struct MiniQServer {
    queue: Queue,
}

impl View for MiniQServer {
    type V = QueueV;

    closed spec fn view(&self) -> QueueV {
        self.queue@
    }
}

impl MiniQServer {
    /// The handler is well formed.
    pub closed spec fn wf(&self) -> bool {
        self.queue.wf()
    }

    /// A handler over an empty queue.
    pub fn new() -> (r: MiniQServer)
        ensures
            r.wf(),
            r@.tasks.len() == 0,
            r@.slots.len() == 0,
    {
        MiniQServer { queue: Queue::new() }
    }

    /// The queue behind the handler.
    pub fn queue(&self) -> (r: &Queue)
        ensures
            r@ == self@,
            self.wf() ==> r.wf(),
    {
        &self.queue
    }

    /// Submits the request's data to its channel.
    pub fn add_task(&mut self, req: AddTaskRequest) -> (r: Result<(), QueueError>)
        requires
            old(self).wf(),
        ensures
            final(self).wf(),
            old(self)@.issued.len() == 0 ==> r is Ok,
            r is Ok ==> exists|id: Seq<char>|
                submitted(old(self)@.tasks, final(self)@.tasks, req.channel@, req.data@, id)
                    && !old(self)@.issued.contains(id) && final(self)@.issued == old(self)@.issued.push(id),
            r matches Err(e) ==> e == QueueError::Internal && final(self)@ == old(self)@,
    {
        match self.queue.add_task(req.channel.as_str(), req.data) {
            Ok(id) => {
                assert(submitted(old(self)@.tasks, self@.tasks, req.channel@, req.data@, id@)
                    && !old(self)@.issued.contains(id@) && self@.issued == old(self)@.issued.push(id@));
                Ok(())
            },
            Err(e) => Err(e),
        }
    }

    /// Moves the request's task to the status its code stands for; an unknown
    /// code stands for `Pending`.
    pub fn update_task(&mut self, req: UpdateTaskRequest) -> (r: Result<(), QueueError>)
        requires
            old(self).wf(),
        ensures
            final(self).wf(),
            r is Ok <==> has_id(old(self)@.tasks, req.id@),
            r is Ok ==> updated(old(self)@, final(self)@, req.channel@, req.id@, status_of_code(req.status))
                && slot_made(old(self)@, final(self)@, (req.channel@, status_of_code(req.status))),
            r is Err ==> r == Err::<(), QueueError>(QueueError::NotFound) && final(self)@ == old(self)@,
    {
        let status = TaskStatus::from(req.status);
        self.queue.update_task_status(req.channel.as_str(), req.id.as_str(), status)
    }

    /// Opens a subscription to the slot of the request's channel and the
    /// status its code stands for, making the slot if there is none.
    pub fn get_tasks(&mut self, req: &GetTaskRequest) -> (r: Result<Subscription, QueueError>)
        requires
            old(self).wf(),
        ensures
            final(self).wf(),
            final(self)@.tasks == old(self)@.tasks,
            final(self)@.published == old(self)@.published,
            final(self)@.issued == old(self)@.issued,
            slot_made(old(self)@, final(self)@, (req.channel@, status_of_code(req.status))),
            r matches Ok(s) && {
                &&& s.wf()
                &&& slot_queue(final(self)@, (req.channel@, status_of_code(req.status)), s@.queue)
                &&& s@.status == status_of_code(req.status)
                &&& s@.receiving()
                &&& s@.redelivered.len() == 0
            },
    {
        let status = TaskStatus::from(req.status);
        match self.queue.get_chan(req.channel.as_str(), status) {
            Ok((sender, receiver)) => Ok(Subscription::new(status, sender, receiver)),
            Err(e) => Err(e),
        }
    }
}

} // verus!
