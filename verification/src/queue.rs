//! The queue: an unbounded channel of notifications, split into a sender
//! that producers share and a receiver that one worker owns.

use crate::options::{LinearRetry, ProwlQueueOptions, RetryMethod};
use prowl::Notification;
use std::time::Duration;
use tokio::sync::mpsc::error::SendError;
use tokio::sync::mpsc::{UnboundedReceiver, UnboundedSender};
use vstd::prelude::*;

verus! {

/// `prowl::Notification`, the payload that the queue carries. The queue
/// never looks inside one.
#[verifier::external_type_specification]
#[verifier::external_body]
pub struct ExNotification(prowl::Notification);

/// `tokio::sync::mpsc::UnboundedSender`, the producing end of the channel.
#[verifier::external_type_specification]
#[verifier::external_body]
#[verifier::reject_recursive_types(T)]
pub struct ExUnboundedSender<T>(tokio::sync::mpsc::UnboundedSender<T>);

/// `tokio::sync::mpsc::UnboundedReceiver`, the consuming end of the channel.
#[verifier::external_type_specification]
#[verifier::external_body]
#[verifier::reject_recursive_types(T)]
pub struct ExUnboundedReceiver<T>(tokio::sync::mpsc::UnboundedReceiver<T>);

/// `tokio::sync::mpsc::unbounded_channel` makes a fresh channel and returns
/// its two ends. What the channel holds is shared between tasks, so nothing
/// is claimed about the ends.
pub assume_specification<T>[ tokio::sync::mpsc::unbounded_channel::<T> ]() -> (ends: (
    UnboundedSender<T>,
    UnboundedReceiver<T>,
));

/// `UnboundedSender::clone` makes another handle to the same channel.
/// Nothing is claimed about the handle.
pub assume_specification<T>[ <UnboundedSender<T> as Clone>::clone ](
    sender: &UnboundedSender<T>,
) -> (handle: UnboundedSender<T>);

/// The duration that `Duration::from_secs` builds from a number of seconds.
pub uninterp spec fn duration_from_secs(secs: u64) -> Duration;

/// `Duration::from_secs` builds a duration of that many whole seconds.
pub assume_specification[ Duration::from_secs ](secs: u64) -> (duration: Duration)
    ensures
        duration == duration_from_secs(secs),
;

/// Calls `UnboundedSender::send`. The channel accepts the notification
/// unless the receiving end has been closed or dropped; whether it has is
/// not known here, so nothing is claimed about success. A notification that
/// is not accepted comes back as it was handed in. (Tokio ends the process
/// rather than let its count of queued messages overflow; memory runs out
/// long before that.)
#[verifier::external_body]
fn send_notification(sender: &UnboundedSender<Notification>, notification: Notification) -> (sent:
    Result<(), Notification>)
    ensures
        sent matches Err(rejected) ==> rejected == notification,
{
    match sender.send(notification) {
        Ok(()) => Ok(()),
        Err(SendError(rejected)) => Err(rejected),
    }
}

/// A notification could not be queued.
#[derive(Debug)]
pub enum AddError {
    /// The channel is closed: nobody would ever take the notification out.
    /// The notification is handed back.
    SendError(Notification),
}

impl AddError {
    /// The notification that was not queued.
    pub open spec fn spec_notification(self) -> Notification {
        match self {
            AddError::SendError(notification) => notification,
        }
    }

    /// Gives the rejected notification back to the caller.
    pub fn into_notification(self) -> (notification: Notification)
        ensures
            notification == self.spec_notification(),
    {
        match self {
            AddError::SendError(notification) => notification,
        }
    }

    /// Turns what the channel answered into what the producer is told:
    /// success stays success, and a notification that the channel handed
    /// back is reported as the cause of the error.
    pub fn from_channel(sent: Result<(), Notification>) -> (added: Result<(), Box<AddError>>)
        ensures
            sent is Ok <==> added is Ok,
            sent matches Err(rejected) ==> added matches Err(error) && *error
                == AddError::SendError(rejected),
    {
        match sent {
            Ok(()) => Ok(()),
            Err(rejected) => Err(Box::new(AddError::SendError(rejected))),
        }
    }
}

/// The producing end of the queue. Clones feed the same channel.
#[derive(Clone)]
pub struct ProwlQueueSender {
    sender: UnboundedSender<Notification>,
}

impl ProwlQueueSender {
    /// Queues a notification for sending.
    ///
    /// Whether the channel takes the notification is up to the channel: it
    /// refuses once its receiving end has been closed or dropped. An error
    /// always carries the refused notification back to the caller.
    pub fn add(&self, notification: Notification) -> (added: Result<(), Box<AddError>>)
        ensures
            added matches Err(error) ==> *error == AddError::SendError(notification),
    {
        AddError::from_channel(send_notification(&self.sender, notification))
    }
}

/// The consuming end of the queue, together with the rules for retrying.
pub struct ProwlQueueReceiver {
    options: ProwlQueueOptions,
    receiver: UnboundedReceiver<Notification>,
}

impl ProwlQueueReceiver {
    /// The options that the worker on this end goes by.
    pub closed spec fn spec_options(self) -> ProwlQueueOptions {
        self.options
    }

    /// The channel end that the worker reads from.
    pub closed spec fn spec_channel(self) -> UnboundedReceiver<Notification> {
        self.receiver
    }

    /// Takes the receiver apart for the task that runs the worker.
    pub fn into_channel(self) -> (parts: (ProwlQueueOptions, UnboundedReceiver<Notification>))
        ensures
            parts.0 == self.spec_options(),
            parts.1 == self.spec_channel(),
    {
        (self.options, self.receiver)
    }
}

/// A notification queue on top of a Tokio channel.
pub struct ProwlQueue {
    prowl_queue_receiver: ProwlQueueReceiver,
    prowl_queue_sender: ProwlQueueSender,
}

impl ProwlQueue {
    /// The producing end of this queue.
    pub closed spec fn spec_sender(self) -> ProwlQueueSender {
        self.prowl_queue_sender
    }

    /// The consuming end of this queue.
    pub closed spec fn spec_receiver(self) -> ProwlQueueReceiver {
        self.prowl_queue_receiver
    }

    /// The options that this queue was made with.
    pub open spec fn spec_options(self) -> ProwlQueueOptions {
        self.spec_receiver().spec_options()
    }

    /// Makes an empty queue whose worker will go by `options`.
    pub fn new(options: ProwlQueueOptions) -> (queue: Self)
        ensures
            queue.spec_options() == options,
    {
        let (sender, receiver) = tokio::sync::mpsc::unbounded_channel();
        let prowl_queue_receiver = ProwlQueueReceiver { options, receiver };
        let prowl_queue_sender = ProwlQueueSender { sender };

        Self { prowl_queue_receiver, prowl_queue_sender }
    }

    /// Splits the queue into its two ends.
    pub fn into_parts(self) -> (parts: (ProwlQueueSender, ProwlQueueReceiver))
        ensures
            parts.0 == self.spec_sender(),
            parts.1 == self.spec_receiver(),
    {
        (self.prowl_queue_sender, self.prowl_queue_receiver)
    }
}

impl Default for ProwlQueue {
    /// A queue that retries every 60 seconds and never gives up.
    fn default() -> (queue: Self)
        ensures
            queue.spec_options().spec_retry_method().spec_backoff() == duration_from_secs(60),
            queue.spec_options().spec_retry_method().spec_max_retries() is None,
    {
        let retry_method = LinearRetry::new(Duration::from_secs(60), None);
        let retry_method = RetryMethod::Linear(retry_method);
        let options = ProwlQueueOptions::new(retry_method);

        ProwlQueue::new(options)
    }
}

} // verus!
