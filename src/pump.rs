use vstd::prelude::*;
use crate::queue::{publish, receiver_channel, sender_capacity, sender_channel};
use crate::task::{Task, TaskStatus, TaskV};
use crate::wire::{wire_of_task, WireTask};

verus! {

/// What the pump asks its driver to do next.
pub enum PumpAction {
    /// Wait for the next task of the slot.
    Receive,
    /// Hand the task to the subscriber's stream.
    Forward(WireTask),
    /// End the stream.
    Stop,
}

/// The decisions of one subscriber's pump: it takes the tasks of one
/// fan-out slot, forwards those with the wanted status, and hands a task
/// that could not be forwarded back to the slot before it stops.
pub struct Subscription {
    status: TaskStatus,
    sender: flume::Sender<Task>,
    receiver: flume::Receiver<Task>,
    in_flight: Option<Task>,
    stopped: bool,
    redelivered: Ghost<Seq<TaskV>>,
}

/// Where a pump stands: the status it wants, the flume channel of its slot,
/// the task being forwarded if any, whether it has stopped, and the tasks it
/// has handed back to that channel.
pub struct SubscriptionV {
    pub status: TaskStatus,
    pub queue: int,
    pub in_flight: Option<TaskV>,
    pub stopped: bool,
    pub redelivered: Seq<TaskV>,
}

impl View for Subscription {
    type V = SubscriptionV;

    closed spec fn view(&self) -> SubscriptionV {
        SubscriptionV {
            status: self.status,
            queue: sender_channel(self.sender),
            in_flight: match self.in_flight {
                Some(t) => Some(t@),
                None => None,
            },
            stopped: self.stopped,
            redelivered: self.redelivered@,
        }
    }
}

impl SubscriptionV {
    /// The pump waits for a task of its slot.
    pub open spec fn receiving(self) -> bool {
        !self.stopped && self.in_flight is None
    }

    /// The pump waits to learn whether its task reached the remote stream.
    pub open spec fn forwarding(self) -> bool {
        !self.stopped && self.in_flight is Some
    }
}

impl Subscription {
    /// Both handles are on the same unbounded channel.
    pub closed spec fn wf(&self) -> bool {
        &&& receiver_channel(self.receiver) == sender_channel(self.sender)
        &&& sender_capacity(self.sender) is None
    }

    /// A pump that wants tasks of `status` from the slot whose handles are
    /// `sender` and `receiver`.
    pub(crate) fn new(status: TaskStatus, sender: flume::Sender<Task>, receiver: flume::Receiver<Task>) -> (r:
        Subscription)
        requires
            receiver_channel(receiver) == sender_channel(sender),
            sender_capacity(sender) is None,
        ensures
            r.wf(),
            r@.queue == sender_channel(sender),
            r@.status == status,
            r@.receiving(),
            r@.redelivered.len() == 0,
    {
        Subscription { status, sender, receiver, in_flight: None, stopped: false, redelivered: Ghost(Seq::empty()) }
    }

    /// The status this pump forwards.
    pub fn status(&self) -> (r: TaskStatus)
        ensures
            r == self@.status,
    {
        self.status
    }

    /// The receiving handle of the slot, for the driver to wait on.
    pub fn receiver(&self) -> (r: &flume::Receiver<Task>)
        requires
            self.wf(),
        ensures
            receiver_channel(*r) == self@.queue,
    {
        &self.receiver
    }

    /// Whether the pump waits for a task of its slot.
    pub fn is_receiving(&self) -> (r: bool)
        ensures
            r == self@.receiving(),
    {
        !self.stopped && self.in_flight.is_none()
    }

    /// Whether the pump waits to learn whether its task was forwarded.
    pub fn is_forwarding(&self) -> (r: bool)
        ensures
            r == self@.forwarding(),
    {
        !self.stopped && self.in_flight.is_some()
    }

    /// A task came out of the slot. One with the wanted status is forwarded
    /// and kept until its delivery is known; any other is passed over.
    pub fn on_received(&mut self, t: Task) -> (r: PumpAction)
        requires
            old(self).wf(),
            old(self)@.receiving(),
        ensures
            final(self).wf(),
            final(self)@.status == old(self)@.status,
            final(self)@.queue == old(self)@.queue,
            final(self)@.redelivered == old(self)@.redelivered,
            t.status == old(self)@.status ==> {
                &&& final(self)@.in_flight == Some(t@)
                &&& !final(self)@.stopped
                &&& r matches PumpAction::Forward(w) && w@ == wire_of_task(t@)
            },
            t.status != old(self)@.status ==> final(self)@ == old(self)@ && r is Receive,
    {
        if t.status == self.status {
            let w = t.to_wire();
            self.in_flight = Some(t);
            PumpAction::Forward(w)
        } else {
            PumpAction::Receive
        }
    }

    /// The slot was closed: the pump stops.
    pub fn on_closed(&mut self) -> (r: PumpAction)
        requires
            old(self).wf(),
            old(self)@.receiving(),
        ensures
            final(self).wf(),
            r is Stop,
            final(self)@ == (SubscriptionV { stopped: true, ..old(self)@ }),
    {
        self.stopped = true;
        PumpAction::Stop
    }

    /// The task in flight reached the remote stream: the pump waits for the next one.
    pub fn on_delivered(&mut self) -> (r: PumpAction)
        requires
            old(self).wf(),
            old(self)@.forwarding(),
        ensures
            final(self).wf(),
            r is Receive,
            final(self)@ == (SubscriptionV { in_flight: None, ..old(self)@ }),
            final(self)@.receiving(),
    {
        self.in_flight = None;
        PumpAction::Receive
    }

    /// The remote stream refused the task in flight: the pump hands it back to
    /// the channel of its slot, `self@.queue`, so that another subscriber can
    /// take it, and stops. A slot's channel is unbounded and this pump holds a
    /// receiving handle on it, so the hand-back does not fail.
    pub fn on_undelivered(&mut self) -> (r: Result<(), Task>)
        requires
            old(self).wf(),
            old(self)@.forwarding(),
        ensures
            final(self).wf(),
            final(self)@.stopped,
            final(self)@.in_flight is None,
            final(self)@.status == old(self)@.status,
            final(self)@.queue == old(self)@.queue,
            r is Ok,
            final(self)@.redelivered == old(self)@.redelivered.push(old(self)@.in_flight->Some_0),
    {
        self.stopped = true;
        match self.in_flight.take() {
            Some(t) => {
                let ghost tv = t@;
                let r = publish(&self.sender, &self.receiver, t);
                self.redelivered = Ghost(self.redelivered@.push(tv));
                r
            },
            None => Ok(()),
        }
    }
}

} // verus!
