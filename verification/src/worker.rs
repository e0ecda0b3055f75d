//! The decisions of the queue's worker, as a state machine.
//!
//! The worker alternates between waiting on the outside world (the channel,
//! the Prowl API, the clock) and deciding what to do next. Only the deciding
//! lives here: [`WorkerState::action`] names what the worker is waiting for,
//! and [`WorkerState::step`] takes what came of it to the next state.

use crate::delivery::DeliveryFailure;
use crate::options::RetryMethod;
use std::time::Duration;
use vstd::prelude::*;

verus! {

/// Where the worker stands. `Attempting` and `Waiting` carry the number of
/// the current attempt, counted from zero per notification.
#[derive(Clone, Copy, Debug, PartialEq, Eq, Structural)]
pub enum WorkerState {
    /// Nothing has been taken from the channel yet.
    Idle,
    /// The current notification is being delivered.
    Attempting(usize),
    /// The attempt failed and will be repeated once the backoff is over.
    Waiting(usize),
    /// The last notification was delivered.
    Done,
    /// The last notification ran out of retries and was dropped.
    DroppedExhausted,
    /// The last notification failed for good and was dropped.
    Terminated,
    /// The channel is closed and empty: the worker has ended.
    Stopped,
}

/// What the outside world reports back to the worker.
#[derive(Clone, Copy, Debug, PartialEq, Eq, Structural)]
pub enum WorkerEvent {
    /// The channel handed over its next notification.
    ItemReceived,
    /// The channel is closed and holds nothing more.
    ChannelClosed,
    /// The delivery attempt succeeded.
    Delivered,
    /// The delivery attempt failed.
    DeliveryFailed(DeliveryFailure),
    /// The backoff is over.
    BackoffElapsed,
}

/// What the worker asks the outside world to do next.
#[derive(Clone, Copy, Debug, PartialEq, Eq)]
pub enum WorkerAction {
    /// Wait for the next notification on the channel.
    Receive,
    /// Try to deliver the current notification.
    Deliver,
    /// Wait this long, then try again.
    Sleep(Duration),
    /// Return: there will be no more notifications.
    Stop,
}

/// The attempt number that follows `retry`. The counter stops at
/// `usize::MAX`, which only a policy without a limit can reach.
pub open spec fn following_attempt(retry: usize) -> usize {
    if retry < usize::MAX {
        (retry + 1) as usize
    } else {
        retry
    }
}

impl WorkerState {
    /// No notification is in flight: the worker is free to take the next one.
    pub open spec fn awaits_item(self) -> bool {
        self is Idle || self is Done || self is DroppedExhausted || self is Terminated
    }

    /// A notification has been taken and has not reached its end yet.
    pub open spec fn in_flight(self) -> bool {
        self is Attempting || self is Waiting
    }

    /// What the worker waits for in this state.
    pub open spec fn spec_action(self, policy: RetryMethod) -> WorkerAction {
        match self {
            WorkerState::Attempting(_) => WorkerAction::Deliver,
            WorkerState::Waiting(_) => WorkerAction::Sleep(policy.spec_backoff()),
            WorkerState::Stopped => WorkerAction::Stop,
            _ => WorkerAction::Receive,
        }
    }

    /// Whether `event` is an answer to what the worker waits for in this state.
    pub open spec fn expects(self, event: WorkerEvent) -> bool {
        match event {
            WorkerEvent::ItemReceived | WorkerEvent::ChannelClosed => self.awaits_item(),
            WorkerEvent::Delivered | WorkerEvent::DeliveryFailed(_) => self is Attempting,
            WorkerEvent::BackoffElapsed => self is Waiting,
        }
    }

    /// The state that follows this one when `event` comes in.
    ///
    /// An event that the worker does not expect changes nothing.
    pub open spec fn spec_step(self, policy: RetryMethod, event: WorkerEvent) -> WorkerState {
        if !self.expects(event) {
            self
        } else {
            match event {
                WorkerEvent::ItemReceived => WorkerState::Attempting(0),
                WorkerEvent::ChannelClosed => WorkerState::Stopped,
                WorkerEvent::Delivered => WorkerState::Done,
                WorkerEvent::DeliveryFailed(failure) => {
                    if !failure.spec_is_retryable() {
                        WorkerState::Terminated
                    } else if policy.permits_retry(self->Attempting_0 as nat) {
                        WorkerState::Waiting(self->Attempting_0)
                    } else {
                        WorkerState::DroppedExhausted
                    }
                },
                WorkerEvent::BackoffElapsed => WorkerState::Attempting(
                    following_attempt(self->Waiting_0),
                ),
            }
        }
    }

    /// The state that the worker reaches from this one once `events` have
    /// come in, one after the other.
    pub open spec fn after(self, policy: RetryMethod, events: Seq<WorkerEvent>) -> WorkerState
        decreases events.len(),
    {
        if events.len() == 0 {
            self
        } else {
            self.after(policy, events.drop_last()).spec_step(policy, events.last())
        }
    }

    /// How many delivery attempts the worker starts while `events` come in.
    /// An attempt starts with each move into `Attempting`.
    pub open spec fn attempts_started(self, policy: RetryMethod, events: Seq<WorkerEvent>) -> nat
        decreases events.len(),
    {
        if events.len() == 0 {
            0
        } else {
            let before = self.after(policy, events.drop_last());
            let earlier = self.attempts_started(policy, events.drop_last());
            if !(before is Attempting) && before.spec_step(policy, events.last()) is Attempting {
                earlier + 1
            } else {
                earlier
            }
        }
    }

    /// What to do in this state.
    pub fn action(&self, policy: &RetryMethod) -> (action: WorkerAction)
        ensures
            action == self.spec_action(*policy),
    {
        match self {
            WorkerState::Attempting(_) => WorkerAction::Deliver,
            WorkerState::Waiting(_) => WorkerAction::Sleep(policy.backoff_duration()),
            WorkerState::Stopped => WorkerAction::Stop,
            WorkerState::Idle
            | WorkerState::Done
            | WorkerState::DroppedExhausted
            | WorkerState::Terminated => WorkerAction::Receive,
        }
    }

    /// Takes in what the last action led to and moves to the next state.
    pub fn step(self, policy: &RetryMethod, event: WorkerEvent) -> (next: WorkerState)
        ensures
            next == self.spec_step(*policy, event),
    {
        match (self, event) {
            (WorkerState::Attempting(_), WorkerEvent::Delivered) => WorkerState::Done,
            (WorkerState::Attempting(retry), WorkerEvent::DeliveryFailed(failure)) => {
                if !failure.is_retryable() {
                    WorkerState::Terminated
                } else if policy.should_retry(retry) {
                    WorkerState::Waiting(retry)
                } else {
                    WorkerState::DroppedExhausted
                }
            },
            (WorkerState::Waiting(retry), WorkerEvent::BackoffElapsed) => {
                if retry < usize::MAX {
                    WorkerState::Attempting(retry + 1)
                } else {
                    WorkerState::Attempting(retry)
                }
            },
            (
                WorkerState::Idle
                | WorkerState::Done
                | WorkerState::DroppedExhausted
                | WorkerState::Terminated,
                WorkerEvent::ItemReceived,
            ) => WorkerState::Attempting(0),
            (
                WorkerState::Idle
                | WorkerState::Done
                | WorkerState::DroppedExhausted
                | WorkerState::Terminated,
                WorkerEvent::ChannelClosed,
            ) => WorkerState::Stopped,
            (state, _) => state,
        }
    }
}

/// What a worker meets on a notification that it takes from the channel and
/// that then fails `failures` times in a row because the request does not get
/// through, where the worker waits out the backoff after each failure.
pub open spec fn failing_notification(failures: nat) -> Seq<WorkerEvent>
    decreases failures,
{
    if failures == 0 {
        seq![WorkerEvent::ItemReceived]
    } else {
        failing_notification((failures - 1) as nat).push(
            WorkerEvent::DeliveryFailed(DeliveryFailure::Send),
        ).push(WorkerEvent::BackoffElapsed)
    }
}

/// One more event extends a run by one step.
proof fn lemma_after_push(
    start: WorkerState,
    policy: RetryMethod,
    events: Seq<WorkerEvent>,
    event: WorkerEvent,
)
    ensures
        start.after(policy, events.push(event)) == start.after(policy, events).spec_step(
            policy,
            event,
        ),
        start.attempts_started(policy, events.push(event)) == start.attempts_started(
            policy,
            events,
        ) + if !(start.after(policy, events) is Attempting) && start.after(
            policy,
            events,
        ).spec_step(policy, event) is Attempting {
            1nat
        } else {
            0nat
        },
{
    assert(events.push(event).drop_last() =~= events);
}

/// Where a worker stands on a notification that keeps failing, as long as
/// the policy still allows the retries: attempt number `failures` is under
/// way, and it is the `failures + 1`-th attempt that was started.
proof fn lemma_failing_notification_is_retried(
    start: WorkerState,
    policy: RetryMethod,
    failures: nat,
)
    requires
        start.awaits_item(),
        failures <= usize::MAX,
        policy.spec_max_retries() matches Some(max) ==> failures <= max,
    ensures
        start.after(policy, failing_notification(failures)) == WorkerState::Attempting(
            failures as usize,
        ),
        start.attempts_started(policy, failing_notification(failures)) == failures + 1,
    decreases failures,
{
    if failures == 0 {
        let none = Seq::<WorkerEvent>::empty();
        assert(failing_notification(0) =~= none.push(WorkerEvent::ItemReceived));
        lemma_after_push(start, policy, none, WorkerEvent::ItemReceived);
    } else {
        let earlier = (failures - 1) as nat;
        let failed = failing_notification(earlier).push(
            WorkerEvent::DeliveryFailed(DeliveryFailure::Send),
        );
        lemma_failing_notification_is_retried(start, policy, earlier);
        lemma_after_push(
            start,
            policy,
            failing_notification(earlier),
            WorkerEvent::DeliveryFailed(DeliveryFailure::Send),
        );
        lemma_after_push(start, policy, failed, WorkerEvent::BackoffElapsed);
    }
}

/// Where a worker stands on a notification that has failed more often than
/// the policy allows retries: the notification has been dropped, and no
/// attempt was started beyond the first one and the retries allowed.
proof fn lemma_failing_notification_is_dropped(
    start: WorkerState,
    policy: RetryMethod,
    max: usize,
    failures: nat,
)
    requires
        start.awaits_item(),
        policy.spec_max_retries() == Some(max),
        failures > max,
    ensures
        start.after(policy, failing_notification(failures)) == WorkerState::DroppedExhausted,
        start.attempts_started(policy, failing_notification(failures)) == max + 1,
    decreases failures,
{
    let earlier = (failures - 1) as nat;
    let failed = failing_notification(earlier).push(
        WorkerEvent::DeliveryFailed(DeliveryFailure::Send),
    );
    if earlier == max {
        lemma_failing_notification_is_retried(start, policy, earlier);
    } else {
        lemma_failing_notification_is_dropped(start, policy, max, earlier);
    }
    lemma_after_push(
        start,
        policy,
        failing_notification(earlier),
        WorkerEvent::DeliveryFailed(DeliveryFailure::Send),
    );
    lemma_after_push(start, policy, failed, WorkerEvent::BackoffElapsed);
}

/// With a limit of `max` retries, a notification that keeps failing because
/// the request does not get through is attempted `max + 1` times in all: as
/// long as it has failed no more than `max` times the next attempt is under
/// way, and with the failure after that it is dropped as exhausted, which is
/// not the end that a failure beyond repair leads to.
pub proof fn law_retries_are_bounded(
    start: WorkerState,
    policy: RetryMethod,
    max: usize,
    failures: nat,
)
    requires
        start.awaits_item(),
        policy.spec_max_retries() == Some(max),
    ensures
        failures <= max ==> start.after(policy, failing_notification(failures))
            == WorkerState::Attempting(failures as usize),
        failures <= max ==> start.attempts_started(policy, failing_notification(failures))
            == failures + 1,
        failures > max ==> start.after(policy, failing_notification(failures))
            == WorkerState::DroppedExhausted,
        failures > max ==> start.attempts_started(policy, failing_notification(failures)) == max
            + 1,
{
    if failures <= max {
        lemma_failing_notification_is_retried(start, policy, failures);
    } else {
        lemma_failing_notification_is_dropped(start, policy, max, failures);
    }
}

/// Without a limit, a notification that keeps failing because the request
/// does not get through is retried for ever: however often it has failed,
/// the next attempt is under way. Each wait in between lasts the backoff of
/// the policy, whatever the number of the attempt.
pub proof fn law_unlimited_retries_go_on(
    start: WorkerState,
    policy: RetryMethod,
    failures: nat,
    retry: usize,
)
    requires
        start.awaits_item(),
        policy.spec_max_retries() is None,
    ensures
        start.after(policy, failing_notification(failures)) == WorkerState::Attempting(
            if failures <= usize::MAX {
                failures as usize
            } else {
                usize::MAX
            },
        ),
        start.attempts_started(policy, failing_notification(failures)) == failures + 1,
        WorkerState::Attempting(retry).spec_step(
            policy,
            WorkerEvent::DeliveryFailed(DeliveryFailure::Send),
        ) == WorkerState::Waiting(retry),
        WorkerState::Waiting(retry).spec_action(policy) == WorkerAction::Sleep(
            policy.spec_backoff(),
        ),
    decreases failures,
{
    if failures == 0 {
        lemma_failing_notification_is_retried(start, policy, 0);
    } else {
        let earlier = (failures - 1) as nat;
        let failed = failing_notification(earlier).push(
            WorkerEvent::DeliveryFailed(DeliveryFailure::Send),
        );
        law_unlimited_retries_go_on(start, policy, earlier, retry);
        lemma_after_push(
            start,
            policy,
            failing_notification(earlier),
            WorkerEvent::DeliveryFailed(DeliveryFailure::Send),
        );
        lemma_after_push(start, policy, failed, WorkerEvent::BackoffElapsed);
    }
}

/// Two notifications that are both delivered at the first attempt are
/// handled in turn: the first is done, after its one attempt, before the
/// attempt on the second starts.
pub proof fn law_deliveries_take_turns(start: WorkerState, policy: RetryMethod)
    requires
        start.awaits_item(),
    ensures
        start.after(policy, seq![WorkerEvent::ItemReceived]) == WorkerState::Attempting(0),
        start.after(policy, seq![WorkerEvent::ItemReceived, WorkerEvent::Delivered])
            == WorkerState::Done,
        start.attempts_started(policy, seq![WorkerEvent::ItemReceived, WorkerEvent::Delivered])
            == 1,
        start.after(
            policy,
            seq![WorkerEvent::ItemReceived, WorkerEvent::Delivered, WorkerEvent::ItemReceived],
        ) == WorkerState::Attempting(0),
        start.attempts_started(
            policy,
            seq![WorkerEvent::ItemReceived, WorkerEvent::Delivered, WorkerEvent::ItemReceived],
        ) == 2,
{
    let none = Seq::<WorkerEvent>::empty();
    let first_taken = none.push(WorkerEvent::ItemReceived);
    let first_done = first_taken.push(WorkerEvent::Delivered);
    let second_taken = first_done.push(WorkerEvent::ItemReceived);
    assert(seq![WorkerEvent::ItemReceived] =~= first_taken);
    assert(seq![WorkerEvent::ItemReceived, WorkerEvent::Delivered] =~= first_done);
    assert(seq![WorkerEvent::ItemReceived, WorkerEvent::Delivered, WorkerEvent::ItemReceived]
        =~= second_taken);
    lemma_after_push(start, policy, none, WorkerEvent::ItemReceived);
    lemma_after_push(start, policy, first_taken, WorkerEvent::Delivered);
    lemma_after_push(start, policy, first_done, WorkerEvent::ItemReceived);
}

/// A failure that a retry would not mend ends the notification with the
/// attempt that met it: the notification is dropped after one attempt if
/// that was the first, whatever retries the policy would allow, and the
/// worker is free for the next notification.
pub proof fn law_fatal_failure_is_not_retried(
    start: WorkerState,
    policy: RetryMethod,
    failure: DeliveryFailure,
    retry: usize,
)
    requires
        start.awaits_item(),
        !failure.spec_is_retryable(),
    ensures
        WorkerState::Attempting(retry).spec_step(policy, WorkerEvent::DeliveryFailed(failure))
            == WorkerState::Terminated,
        start.after(policy, seq![WorkerEvent::ItemReceived, WorkerEvent::DeliveryFailed(failure)])
            == WorkerState::Terminated,
        start.attempts_started(
            policy,
            seq![WorkerEvent::ItemReceived, WorkerEvent::DeliveryFailed(failure)],
        ) == 1,
        WorkerState::Terminated.awaits_item(),
{
    let none = Seq::<WorkerEvent>::empty();
    let received = none.push(WorkerEvent::ItemReceived);
    assert(seq![WorkerEvent::ItemReceived, WorkerEvent::DeliveryFailed(failure)]
        =~= received.push(WorkerEvent::DeliveryFailed(failure)));
    lemma_after_push(start, policy, none, WorkerEvent::ItemReceived);
    lemma_after_push(start, policy, received, WorkerEvent::DeliveryFailed(failure));
}

/// Notifications are handled one at a time, in the order in which the
/// channel hands them over. While one is in flight the worker does not ask
/// for another and would not take one; the first attempt on a notification
/// starts only once the notification before it has reached its end.
pub proof fn law_one_notification_at_a_time(
    state: WorkerState,
    policy: RetryMethod,
    event: WorkerEvent,
)
    ensures
        state.spec_action(policy) == WorkerAction::Receive <==> state.awaits_item(),
        state.in_flight() ==> state.spec_step(policy, WorkerEvent::ItemReceived) == state,
        !state.in_flight() && state.spec_step(policy, event).in_flight() ==> state.awaits_item()
            && event == WorkerEvent::ItemReceived && state.spec_step(policy, event)
            == WorkerState::Attempting(0),
{
}

/// The worker ends when it learns that the channel is closed and empty
/// while no notification is in flight, and for no other reason. It asks the
/// channel only between notifications, so a notification in flight is seen
/// through first. Once ended, the worker stays ended.
pub proof fn law_worker_ends_with_the_channel(
    state: WorkerState,
    policy: RetryMethod,
    event: WorkerEvent,
)
    ensures
        state.awaits_item() ==> state.spec_step(policy, WorkerEvent::ChannelClosed)
            == WorkerState::Stopped,
        state.in_flight() ==> state.spec_step(policy, WorkerEvent::ChannelClosed) == state,
        state.spec_step(policy, event) is Stopped ==> state is Stopped || (state.awaits_item()
            && event == WorkerEvent::ChannelClosed),
        state.spec_action(policy) == WorkerAction::Stop <==> state is Stopped,
        state is Stopped ==> state.spec_step(policy, event) is Stopped,
{
}

/// As long as the channel is not reported closed, the worker does not end,
/// whatever becomes of the notifications that it handles.
pub proof fn law_worker_outlives_its_notifications(
    start: WorkerState,
    policy: RetryMethod,
    events: Seq<WorkerEvent>,
)
    requires
        !(start is Stopped),
        forall|i: int| 0 <= i < events.len() ==> events[i] != WorkerEvent::ChannelClosed,
    ensures
        !(start.after(policy, events) is Stopped),
    decreases events.len(),
{
    if events.len() > 0 {
        law_worker_outlives_its_notifications(start, policy, events.drop_last());
    }
}

} // verus!
