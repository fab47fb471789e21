use timer_shell::effect::Effect;
use timer_shell::error::ShellError;
use timer_shell::notify::NotificationDispatcher;
use timer_shell::notify::NotificationEvent;

#[test]
fn task_completed_notification_quotes_the_task() {
    let mut d = NotificationDispatcher::new();
    let effect = d.dispatch(NotificationEvent::TaskCompleted { task_name: "Write report".to_string() });
    assert_eq!(
        effect,
        Effect::Notify {
            title: "Task Completed".to_string(),
            body: "The task \"Write report\" has been completed.".to_string(),
        }
    );
}

#[test]
fn task_completed_notification_with_empty_name() {
    let mut d = NotificationDispatcher::new();
    let effect = d.dispatch(NotificationEvent::TaskCompleted { task_name: String::new() });
    assert_eq!(
        effect,
        Effect::Notify {
            title: "Task Completed".to_string(),
            body: "The task \"\" has been completed.".to_string(),
        }
    );
}

#[test]
fn loop_completed_notification_is_fixed() {
    let mut d = NotificationDispatcher::new();
    let effect = d.dispatch(NotificationEvent::LoopCompleted);
    assert_eq!(
        effect,
        Effect::Notify {
            title: "Loop Completed".to_string(),
            body: "All tasks in the loop are done!".to_string(),
        }
    );
}

#[test]
fn dispatcher_counts_dispatches() {
    let mut d = NotificationDispatcher::new();
    assert_eq!((d.dispatched(), d.failed()), (0, 0));
    d.dispatch(NotificationEvent::LoopCompleted);
    assert_eq!((d.dispatched(), d.failed()), (1, 0));
    d.dispatch(NotificationEvent::TaskCompleted { task_name: "a".to_string() });
    assert_eq!((d.dispatched(), d.failed()), (2, 0));
}

#[test]
fn failed_delivery_is_counted_and_absorbed() {
    let mut d = NotificationDispatcher::new();
    d.dispatch(NotificationEvent::LoopCompleted);
    d.absorb(Err(ShellError::NotificationDeliveryFailed));
    assert_eq!((d.dispatched(), d.failed()), (1, 1));
    d.absorb(Ok(()));
    assert_eq!((d.dispatched(), d.failed()), (1, 1));
    d.absorb(Err(ShellError::NotificationDeliveryFailed));
    assert_eq!((d.dispatched(), d.failed()), (1, 2));
}
