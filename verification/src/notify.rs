//! Notifications for completed tasks and loops.

use vstd::prelude::*;
use vstd::string::StringExecFns;
use crate::effect::Effect;
use crate::effect::EffectView;
use crate::error::ShellError;

verus! {

/// A completion event, as plain mathematical values.
pub enum NotificationEventView {
    TaskCompleted { task_name: Seq<char> },
    LoopCompleted,
}

/// A completion event. It is dispatched and discarded, never stored.
#[derive(Debug, PartialEq, Eq)]
pub enum NotificationEvent {
    /// The named task has run out.
    TaskCompleted { task_name: String },
    /// Every task of the loop is done.
    LoopCompleted,
}

impl View for NotificationEvent {
    type V = NotificationEventView;

    open spec fn view(&self) -> NotificationEventView {
        match *self {
            NotificationEvent::TaskCompleted { task_name } => NotificationEventView::TaskCompleted {
                task_name: task_name@,
            },
            NotificationEvent::LoopCompleted => NotificationEventView::LoopCompleted,
        }
    }
}

/// The title of the notification for an event.
pub open spec fn notification_title(e: NotificationEventView) -> Seq<char> {
    match e {
        NotificationEventView::TaskCompleted { .. } => "Task Completed"@,
        NotificationEventView::LoopCompleted => "Loop Completed"@,
    }
}

/// The body of the notification for an event. That of a completed task quotes
/// the task's name; that of a completed loop is fixed.
pub open spec fn notification_body(e: NotificationEventView) -> Seq<char> {
    match e {
        NotificationEventView::TaskCompleted { task_name } => "The task \""@ + task_name
            + "\" has been completed."@,
        NotificationEventView::LoopCompleted => "All tasks in the loop are done!"@,
    }
}

/// The request that hands the notification for an event to the host.
pub open spec fn notification_for(e: NotificationEventView) -> EffectView {
    EffectView::Notify { title: notification_title(e), body: notification_body(e) }
}

/// A count that grows by one and stays at the largest 64-bit value.
pub open spec fn counted(n: nat) -> nat {
    if n < u64::MAX {
        n + 1
    } else {
        n
    }
}

/// How many notifications were dispatched, and how many of them the
/// notification service did not take.
pub struct DispatcherView {
    pub dispatched: nat,
    pub failed: nat,
}

/// Turns completion events into notifications and absorbs failed deliveries.
#[derive(Debug, PartialEq, Eq)]
pub struct NotificationDispatcher {
    dispatched: u64,
    failed: u64,
}

impl View for NotificationDispatcher {
    type V = DispatcherView;

    closed spec fn view(&self) -> DispatcherView {
        DispatcherView { dispatched: self.dispatched as nat, failed: self.failed as nat }
    }
}

impl NotificationDispatcher {
    /// A dispatcher that has dispatched nothing yet.
    pub fn new() -> (d: Self)
        ensures
            d@ == (DispatcherView { dispatched: 0, failed: 0 }),
    {
        NotificationDispatcher { dispatched: 0, failed: 0 }
    }

    /// How many notifications were dispatched.
    pub fn dispatched(&self) -> (n: u64)
        ensures
            n == self@.dispatched,
    {
        self.dispatched
    }

    /// How many deliveries failed.
    pub fn failed(&self) -> (n: u64)
        ensures
            n == self@.failed,
    {
        self.failed
    }

    /// Dispatches an event: counts it and returns the request that hands its
    /// notification to the host.
    pub fn dispatch(&mut self, event: NotificationEvent) -> (effect: Effect)
        ensures
            effect@ == notification_for(event@),
            final(self)@ == (DispatcherView {
                dispatched: counted(old(self)@.dispatched),
                failed: old(self)@.failed,
            }),
    {
        if self.dispatched < u64::MAX {
            self.dispatched = self.dispatched + 1;
        }
        match event {
            NotificationEvent::TaskCompleted { task_name } => {
                let body = String::from_str("The task \"").concat(task_name.as_str()).concat(
                    "\" has been completed.",
                );
                Effect::Notify { title: String::from_str("Task Completed"), body }
            },
            NotificationEvent::LoopCompleted => Effect::Notify {
                title: String::from_str("Loop Completed"),
                body: String::from_str("All tasks in the loop are done!"),
            },
        }
    }

    /// Takes note of how a delivery ended. A failure is counted and goes no
    /// further: nothing is returned to the command that asked for the
    /// notification.
    pub fn absorb(&mut self, outcome: Result<(), ShellError>)
        ensures
            final(self)@ == (DispatcherView {
                dispatched: old(self)@.dispatched,
                failed: if outcome is Err {
                    counted(old(self)@.failed)
                } else {
                    old(self)@.failed
                },
            }),
    {
        if outcome.is_err() && self.failed < u64::MAX {
            self.failed = self.failed + 1;
        }
    }
}

} // verus!
