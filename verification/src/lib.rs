//! A retrying delivery queue for Prowl notifications.
//!
//! Producers hand notifications to a cloneable [`ProwlQueueSender`]. One
//! worker owns the [`ProwlQueueReceiver`], takes the notifications out in the
//! order in which they were queued, and sees each one through to its end
//! before it takes the next: delivered, dropped after the retries that
//! [`RetryMethod`] allows, or dropped at once after a failure that a retry
//! would not mend.

pub mod delivery;
pub mod options;
pub mod queue;
pub mod worker;

pub use delivery::DeliveryFailure;
pub use options::{LinearRetry, ProwlQueueOptions, RetryMethod};
pub use queue::{AddError, ProwlQueue, ProwlQueueReceiver, ProwlQueueSender};
pub use worker::{WorkerAction, WorkerEvent, WorkerState};
