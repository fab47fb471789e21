use timer_shell::effect::OutboundEvent;

#[test]
fn outbound_event_names() {
    let update = OutboundEvent::TimerUpdate {
        task_name: "Write report".to_string(),
        duration: 1500,
        remaining: 900,
    };
    assert_eq!(update.name(), "timer-update");
    assert_eq!(OutboundEvent::TimerPauseState { is_paused: false }.name(), "timer-pause-state");
    assert_eq!(OutboundEvent::TimerReset.name(), "timer-reset");
}
