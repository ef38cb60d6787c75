//! An in-memory task queue: a registry of tasks keyed by id, a fan-out slot for
//! each pair of channel and status, and the decisions of the subscription pump
//! that bridges a slot to a remote stream.
pub mod pump;
pub mod queue;
pub mod server;
pub mod task;
pub mod wire;

pub use pump::{PumpAction, Subscription, SubscriptionV};
pub use queue::{Publication, Queue, QueueError, QueueV};
pub use server::MiniQServer;
pub use task::{Task, TaskStatus, TaskV, Timestamp};
pub use wire::{AddTaskRequest, GetTaskRequest, UpdateTaskRequest, WireTask, WireTaskV, WireTimestamp};
