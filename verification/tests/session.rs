use timer_shell::error::ShellError;
use timer_shell::error::Violation;
use timer_shell::session::SessionState;

fn snapshot(s: &SessionState) -> (String, u32, u32, bool) {
    (s.task_name().clone(), s.duration(), s.remaining(), s.is_paused())
}

#[test]
fn new_session_is_idle() {
    let s = SessionState::new();
    assert_eq!(snapshot(&s), (String::new(), 0, 0, false));
}

#[test]
fn update_stores_exactly_what_is_given() {
    let mut s = SessionState::new();
    assert_eq!(s.update("Write report".to_string(), 1500, 900), Ok(()));
    assert_eq!(snapshot(&s), ("Write report".to_string(), 1500, 900, false));
}

#[test]
fn update_accepts_remaining_equal_to_duration() {
    let mut s = SessionState::new();
    assert_eq!(s.update("Read".to_string(), 60, 60), Ok(()));
    assert_eq!(snapshot(&s), ("Read".to_string(), 60, 60, false));
}

#[test]
fn update_accepts_zero_times_and_empty_name() {
    let mut s = SessionState::new();
    s.update("Read".to_string(), 60, 30).unwrap();
    assert_eq!(s.update(String::new(), 0, 0), Ok(()));
    assert_eq!(snapshot(&s), (String::new(), 0, 0, false));
}

#[test]
fn update_accepts_largest_times() {
    let mut s = SessionState::new();
    assert_eq!(s.update("Long".to_string(), u32::MAX, u32::MAX), Ok(()));
    assert_eq!(snapshot(&s), ("Long".to_string(), u32::MAX, u32::MAX, false));
}

#[test]
fn update_may_raise_remaining_for_a_new_task() {
    let mut s = SessionState::new();
    s.update("First".to_string(), 100, 10).unwrap();
    s.update("Second".to_string(), 300, 300).unwrap();
    assert_eq!(snapshot(&s), ("Second".to_string(), 300, 300, false));
}

#[test]
fn update_refuses_remaining_over_duration() {
    let mut s = SessionState::new();
    s.update("Write report".to_string(), 1500, 900).unwrap();
    s.set_paused(true);
    let res = s.update("Other".to_string(), 10, 11);
    assert_eq!(res, Err(ShellError::Validation(Violation::RemainingExceedsDuration)));
    assert_eq!(snapshot(&s), ("Write report".to_string(), 1500, 900, true));
}

#[test]
fn update_refuses_one_over_zero() {
    let mut s = SessionState::new();
    let res = s.update("Other".to_string(), 0, 1);
    assert_eq!(res, Err(ShellError::Validation(Violation::RemainingExceedsDuration)));
    assert_eq!(snapshot(&s), (String::new(), 0, 0, false));
}

#[test]
fn update_keeps_paused_flag() {
    let mut s = SessionState::new();
    s.set_paused(true);
    s.update("Write report".to_string(), 1500, 900).unwrap();
    assert!(s.is_paused());
}

#[test]
fn pause_leaves_times_alone() {
    let mut s = SessionState::new();
    s.update("Write report".to_string(), 1500, 900).unwrap();
    s.set_paused(true);
    assert_eq!(snapshot(&s), ("Write report".to_string(), 1500, 900, true));
    s.set_paused(false);
    assert_eq!(snapshot(&s), ("Write report".to_string(), 1500, 900, false));
}

#[test]
fn reset_clears_everything() {
    let mut s = SessionState::new();
    s.update("Write report".to_string(), 1500, 900).unwrap();
    s.set_paused(true);
    s.reset();
    assert_eq!(snapshot(&s), (String::new(), 0, 0, false));
    assert_eq!(s, SessionState::new());
}
