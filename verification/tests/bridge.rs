use timer_shell::bridge::CommandBridge;
use timer_shell::effect::Effect;
use timer_shell::effect::OutboundEvent;
use timer_shell::effect::WindowOp;
use timer_shell::error::ShellError;
use timer_shell::error::Violation;
use timer_shell::notify::NotificationDispatcher;
use timer_shell::session::SessionState;
use timer_shell::window::KnownWindow;
use timer_shell::window::Visibility;
use timer_shell::window::WindowRegistry;

fn snapshot(s: &SessionState) -> (String, u32, u32, bool) {
    (s.task_name().clone(), s.duration(), s.remaining(), s.is_paused())
}

fn to_main(event: OutboundEvent) -> Vec<Effect> {
    vec![Effect::Emit { window: KnownWindow::Main, event }]
}

#[test]
fn bridge_starts_idle() {
    let b = CommandBridge::new();
    assert_eq!(snapshot(b.session()), (String::new(), 0, 0, false));
}

#[test]
fn update_timer_stores_and_broadcasts() {
    let mut b = CommandBridge::new();
    let w = WindowRegistry::new();
    let res = b.update_timer(&w, "Write report".to_string(), 1500, 900);
    assert_eq!(
        res,
        Ok(to_main(OutboundEvent::TimerUpdate {
            task_name: "Write report".to_string(),
            duration: 1500,
            remaining: 900,
        }))
    );
    assert_eq!(snapshot(b.session()), ("Write report".to_string(), 1500, 900, false));
}

#[test]
fn update_timer_with_remaining_over_duration_is_refused() {
    let mut b = CommandBridge::new();
    let w = WindowRegistry::new();
    b.update_timer(&w, "Write report".to_string(), 1500, 900).unwrap();
    b.toggle_timer_pause(&w, true).unwrap();
    let res = b.update_timer(&w, "Other".to_string(), 900, 1500);
    assert_eq!(res, Err(ShellError::Validation(Violation::RemainingExceedsDuration)));
    assert_eq!(snapshot(b.session()), ("Write report".to_string(), 1500, 900, true));
}

#[test]
fn refused_update_carries_a_message() {
    let mut b = CommandBridge::new();
    let w = WindowRegistry::new();
    let err = b.update_timer(&w, "Other".to_string(), 1, 2).unwrap_err();
    assert_eq!(err.message(), "validation error: remaining time exceeds total duration");
}

#[test]
fn toggle_pause_sets_flag_and_broadcasts() {
    let mut b = CommandBridge::new();
    let w = WindowRegistry::new();
    b.update_timer(&w, "Write report".to_string(), 1500, 900).unwrap();
    assert_eq!(
        b.toggle_timer_pause(&w, true),
        Ok(to_main(OutboundEvent::TimerPauseState { is_paused: true }))
    );
    assert_eq!(snapshot(b.session()), ("Write report".to_string(), 1500, 900, true));
    assert_eq!(
        b.toggle_timer_pause(&w, true),
        Ok(to_main(OutboundEvent::TimerPauseState { is_paused: true }))
    );
    assert!(b.session().is_paused());
    assert_eq!(
        b.toggle_timer_pause(&w, false),
        Ok(to_main(OutboundEvent::TimerPauseState { is_paused: false }))
    );
    assert_eq!(snapshot(b.session()), ("Write report".to_string(), 1500, 900, false));
}

#[test]
fn reset_timer_yields_idle_from_any_state() {
    let mut b = CommandBridge::new();
    let w = WindowRegistry::new();
    assert_eq!(b.reset_timer(&w), Ok(to_main(OutboundEvent::TimerReset)));
    assert_eq!(snapshot(b.session()), (String::new(), 0, 0, false));
    b.update_timer(&w, "Write report".to_string(), 1500, 900).unwrap();
    b.toggle_timer_pause(&w, true).unwrap();
    assert_eq!(b.reset_timer(&w), Ok(to_main(OutboundEvent::TimerReset)));
    assert_eq!(snapshot(b.session()), (String::new(), 0, 0, false));
}

#[test]
fn task_completed_notifies_and_keeps_session() {
    let mut b = CommandBridge::new();
    let w = WindowRegistry::new();
    let mut d = NotificationDispatcher::new();
    b.update_timer(&w, "Write report".to_string(), 1500, 0).unwrap();
    let res = b.task_completed(&mut d, "Write report".to_string());
    assert_eq!(
        res,
        Ok(vec![Effect::Notify {
            title: "Task Completed".to_string(),
            body: "The task \"Write report\" has been completed.".to_string(),
        }])
    );
    assert_eq!(snapshot(b.session()), ("Write report".to_string(), 1500, 0, false));
    assert_eq!(d.dispatched(), 1);
}

#[test]
fn loop_completed_resets_and_notifies_once() {
    let mut b = CommandBridge::new();
    let w = WindowRegistry::new();
    let mut d = NotificationDispatcher::new();
    b.update_timer(&w, "Write report".to_string(), 1500, 900).unwrap();
    b.toggle_timer_pause(&w, true).unwrap();
    let res = b.loop_completed(&mut d);
    assert_eq!(
        res,
        Ok(vec![Effect::Notify {
            title: "Loop Completed".to_string(),
            body: "All tasks in the loop are done!".to_string(),
        }])
    );
    assert_eq!(snapshot(b.session()), (String::new(), 0, 0, false));
    assert_eq!(d.dispatched(), 1);
    let mut reset = CommandBridge::new();
    reset.update_timer(&w, "Write report".to_string(), 1500, 900).unwrap();
    reset.toggle_timer_pause(&w, true).unwrap();
    reset.reset_timer(&w).unwrap();
    assert_eq!(b.session(), reset.session());
}

#[test]
fn notifications_do_not_depend_on_window_visibility() {
    let mut b = CommandBridge::new();
    let mut d = NotificationDispatcher::new();
    assert_eq!(b.loop_completed(&mut d).unwrap().len(), 1);
    assert_eq!(b.task_completed(&mut d, "a".to_string()).unwrap().len(), 1);
    assert_eq!(d.dispatched(), 2);
}

#[test]
fn hidden_main_gets_no_broadcast() {
    let mut b = CommandBridge::new();
    let mut w = WindowRegistry::new();
    w.hide_window("main").unwrap();
    assert_eq!(b.update_timer(&w, "Write report".to_string(), 1500, 900), Ok(Vec::new()));
    assert_eq!(snapshot(b.session()), ("Write report".to_string(), 1500, 900, false));
    assert_eq!(b.toggle_timer_pause(&w, true), Ok(Vec::new()));
    assert!(b.session().is_paused());
    assert_eq!(b.reset_timer(&w), Ok(Vec::new()));
    w.show("main").unwrap();
    assert_eq!(
        b.toggle_timer_pause(&w, false),
        Ok(to_main(OutboundEvent::TimerPauseState { is_paused: false }))
    );
}

#[test]
fn missing_main_gets_no_broadcast() {
    let mut b = CommandBridge::new();
    let w = WindowRegistry::empty();
    assert_eq!(b.update_timer(&w, "Write report".to_string(), 1500, 900), Ok(Vec::new()));
    assert_eq!(snapshot(b.session()), ("Write report".to_string(), 1500, 900, false));
    assert_eq!(b.reset_timer(&w), Ok(Vec::new()));
}

#[test]
fn shown_widget_does_not_stand_in_for_hidden_main() {
    let mut b = CommandBridge::new();
    let mut w = WindowRegistry::new();
    w.open("timer_widget", true).unwrap();
    w.hide_window("main").unwrap();
    assert_eq!(b.update_timer(&w, "Write report".to_string(), 1500, 900), Ok(Vec::new()));
}

#[test]
fn close_timer_window_closes_the_widget() {
    let b = CommandBridge::new();
    let mut w = WindowRegistry::new();
    w.open("timer_widget", true).unwrap();
    assert_eq!(
        b.close_timer_window(&mut w),
        Ok(vec![Effect::Window { window: KnownWindow::TimerWidget, op: WindowOp::Close }])
    );
    assert!(!w.contains("timer_widget"));
    assert_eq!(w.visibility("main"), Visibility::Shown);
}

#[test]
fn close_timer_window_without_widget_reports_and_does_nothing() {
    let mut b = CommandBridge::new();
    let mut w = WindowRegistry::new();
    b.update_timer(&w, "Write report".to_string(), 1500, 900).unwrap();
    w.focus("main").unwrap();
    let res = b.close_timer_window(&mut w);
    assert_eq!(res, Err(ShellError::WindowNotFound("timer_widget".to_string())));
    assert_eq!(res.unwrap_err().message(), "window not found: timer_widget");
    assert_eq!(snapshot(b.session()), ("Write report".to_string(), 1500, 900, false));
    assert!(w.contains("main"));
    assert_eq!(w.visibility("main"), Visibility::Shown);
    assert!(w.is_focused("main"));
    assert!(!w.contains("timer_widget"));
}

#[test]
fn second_close_reports_the_missing_widget() {
    let b = CommandBridge::new();
    let mut w = WindowRegistry::new();
    w.open("timer_widget", false).unwrap();
    b.close_timer_window(&mut w).unwrap();
    assert_eq!(
        b.close_timer_window(&mut w),
        Err(ShellError::WindowNotFound("timer_widget".to_string()))
    );
}
