//! Laws of the coordination layer, proved over the mathematical model that
//! the contracts of the executable functions are stated in.

use vstd::prelude::*;
use crate::bridge::broadcast;
use crate::bridge::dispatched_once;
use crate::command::command_name;
use crate::command::command_named;
use crate::command::CommandKind;
use crate::command::CommandView;
use crate::coordinator::command_outcome;
use crate::coordinator::command_state;
use crate::coordinator::event_outcome;
use crate::coordinator::event_state;
use crate::coordinator::initial_shell;
use crate::coordinator::ShellEventView;
use crate::coordinator::ShellView;
use crate::effect::EffectView;
use crate::effect::OutboundEventView;
use crate::effect::WindowOp;
use crate::error::ErrorView;
use crate::error::Violation;
use crate::notify::notification_for;
use crate::notify::NotificationEventView;
use crate::session::times_valid;
use crate::session::SessionView;
use crate::tray::menu_action;
use crate::tray::MenuAction;
use crate::tray::TrayIconEvent;
use crate::tray::TrayMenuItemView;
use crate::window::after_close;
use crate::window::after_focus;
use crate::window::after_hide;
use crate::window::after_open;
use crate::window::after_show;
use crate::window::focused_in;
use crate::window::initial_windows;
use crate::window::main_window;
use crate::window::timer_widget;
use crate::window::visibility_in;
use crate::window::windows_valid;
use crate::window::KnownWindow;
use crate::window::Visibility;
use crate::window::WindowStatus;

verus! {

/// The identifiers of the two known windows and of the three menu items are
/// what they read, and so differ from each other.
pub proof fn lemma_names_differ()
    ensures
        main_window() != timer_widget(),
        menu_action("quit"@) == MenuAction::Quit,
        menu_action("show"@) == MenuAction::Show,
        menu_action("hide"@) == MenuAction::Hide,
{
    reveal_strlit("main");
    reveal_strlit("timer_widget");
    reveal_strlit("quit");
    reveal_strlit("show");
    reveal_strlit("hide");
    assert("main"@.len() == 4 && "timer_widget"@.len() == 12);
    assert("quit"@[0] == 'q' && "show"@[0] == 's' && "hide"@[0] == 'h');
}

/// The session of a state is acceptable: its remaining time is within its
/// duration.
pub open spec fn session_valid(s: SessionView) -> bool {
    times_valid(s.duration, s.remaining)
}

/// An accepted update sets task name, duration and remaining time to exactly
/// the values given, leaves the paused flag, and touches nothing else.
pub proof fn law_update_overwrites(s: ShellView, task_name: Seq<char>, duration: nat, remaining: nat)
    requires
        remaining <= duration,
    ensures
        command_outcome(s, CommandView::UpdateTimer { task_name, duration, remaining }) is Ok,
        command_state(s, CommandView::UpdateTimer { task_name, duration, remaining }) == (ShellView {
            session: SessionView { task_name, duration, remaining, paused: s.session.paused },
            ..s
        }),
{
}

/// An update whose remaining time exceeds its duration is refused as a
/// validation error and leaves the state as it is.
pub proof fn law_update_refused(s: ShellView, task_name: Seq<char>, duration: nat, remaining: nat)
    requires
        remaining > duration,
    ensures
        command_outcome(s, CommandView::UpdateTimer { task_name, duration, remaining }) == Err::<
            Seq<EffectView>,
            ErrorView,
        >(ErrorView::Validation(Violation::RemainingExceedsDuration)),
        command_state(s, CommandView::UpdateTimer { task_name, duration, remaining }) == s,
{
}

/// A reset yields the idle session whatever the session was.
pub proof fn law_reset_yields_idle(s: ShellView)
    ensures
        command_outcome(s, CommandView::ResetTimer) is Ok,
        command_state(s, CommandView::ResetTimer).session == (SessionView {
            task_name: Seq::<char>::empty(),
            duration: 0,
            remaining: 0,
            paused: false,
        }),
{
}

/// A completed loop leaves the session as a reset does, and hands the
/// dispatcher exactly one event, that of the completed loop.
pub proof fn law_loop_completed_resets(s: ShellView)
    ensures
        command_state(s, CommandView::LoopCompleted).session == command_state(
            s,
            CommandView::ResetTimer,
        ).session,
        command_state(s, CommandView::LoopCompleted).dispatcher == dispatched_once(s.dispatcher),
        command_outcome(s, CommandView::LoopCompleted) == Ok::<Seq<EffectView>, ErrorView>(
            seq![notification_for(NotificationEventView::LoopCompleted)],
        ),
        command_outcome(s, CommandView::LoopCompleted)->Ok_0.len() == 1,
{
}

/// A completed task does not touch the session.
pub proof fn law_task_completed_keeps_session(s: ShellView, task_name: Seq<char>)
    ensures
        command_state(s, CommandView::TaskCompleted { task_name }).session == s.session,
        command_state(s, CommandView::TaskCompleted { task_name }).windows == s.windows,
{
}

/// Once the main window is hidden, an update is stored and not broadcast, and
/// showing the window afterwards delivers nothing of it: the host is asked to
/// show and focus the window, no more.
pub proof fn law_hidden_main_drops_update(
    s: ShellView,
    task_name: Seq<char>,
    duration: nat,
    remaining: nat,
)
    requires
        remaining <= duration,
    ensures
        ({
            let update = CommandView::UpdateTimer { task_name, duration, remaining };
            let hidden = event_state(s, ShellEventView::MenuItem { id: "hide"@ });
            let updated = command_state(hidden, update);
            let show = ShellEventView::MenuItem { id: "show"@ };
            &&& command_outcome(hidden, update) == Ok::<Seq<EffectView>, ErrorView>(Seq::empty())
            &&& updated.session.task_name == task_name
            &&& updated.session.duration == duration
            &&& updated.session.remaining == remaining
            &&& s.windows.contains_key(main_window()) ==> event_outcome(updated, show) == Ok::<
                Seq<EffectView>,
                ErrorView,
            >(
                seq![
                    EffectView::Window { window: KnownWindow::Main, op: WindowOp::Show },
                    EffectView::Window { window: KnownWindow::Main, op: WindowOp::Focus },
                ],
            )
            &&& !s.windows.contains_key(main_window()) ==> event_outcome(updated, show) is Err
        }),
{
    lemma_names_differ();
}

/// Nothing is broadcast to a main window that is hidden or missing, and
/// exactly one delivery goes to one that is shown.
pub proof fn law_broadcast_needs_shown_main(m: Map<Seq<char>, WindowStatus>, event: OutboundEventView)
    ensures
        visibility_in(m, main_window()) == Visibility::Shown ==> broadcast(m, event) == seq![
            EffectView::Emit { window: KnownWindow::Main, event },
        ],
        visibility_in(m, main_window()) != Visibility::Shown ==> broadcast(m, event).len() == 0,
        broadcast(after_hide(m, main_window()), event).len() == 0,
{
}

/// Closing the timer widget while it is not registered reports exactly that
/// and leaves the state as it is.
pub proof fn law_close_missing_widget(s: ShellView)
    requires
        !s.windows.contains_key(timer_widget()),
    ensures
        command_outcome(s, CommandView::CloseTimerWindow) == Err::<Seq<EffectView>, ErrorView>(
            ErrorView::WindowNotFound(timer_widget()),
        ),
        command_state(s, CommandView::CloseTimerWindow) == s,
{
}

/// An update followed by a pause toggle stores all four values, and with the
/// main window shown the two broadcasts go out in that order.
pub proof fn law_update_then_pause(
    s: ShellView,
    task_name: Seq<char>,
    duration: nat,
    remaining: nat,
    is_paused: bool,
)
    requires
        remaining <= duration,
    ensures
        ({
            let update = CommandView::UpdateTimer { task_name, duration, remaining };
            let toggle = CommandView::ToggleTimerPause { is_paused };
            let updated = command_state(s, update);
            &&& command_state(updated, toggle).session == (SessionView {
                task_name,
                duration,
                remaining,
                paused: is_paused,
            })
            &&& visibility_in(s.windows, main_window()) == Visibility::Shown ==> {
                &&& command_outcome(s, update) == Ok::<Seq<EffectView>, ErrorView>(
                    seq![
                        EffectView::Emit {
                            window: KnownWindow::Main,
                            event: OutboundEventView::TimerUpdate { task_name, duration, remaining },
                        },
                    ],
                )
                &&& command_outcome(updated, toggle) == Ok::<Seq<EffectView>, ErrorView>(
                    seq![
                        EffectView::Emit {
                            window: KnownWindow::Main,
                            event: OutboundEventView::TimerPauseState { is_paused },
                        },
                    ],
                )
            }
        }),
{
}

/// Pausing and resuming leave task name, duration and remaining time as they
/// are.
pub proof fn law_pause_keeps_times(s: ShellView, is_paused: bool)
    ensures
        ({
            let after = command_state(s, CommandView::ToggleTimerPause { is_paused });
            &&& after.session.task_name == s.session.task_name
            &&& after.session.duration == s.session.duration
            &&& after.session.remaining == s.session.remaining
            &&& after.session.paused == is_paused
        }),
{
}

/// The session starts acceptable, whatever the menu.
pub proof fn law_initial_session_valid(menu: Seq<TrayMenuItemView>)
    ensures
        session_valid(initial_shell(menu).session),
{
}

/// Every event keeps the session acceptable.
pub proof fn law_session_stays_valid(s: ShellView, e: ShellEventView)
    requires
        session_valid(s.session),
    ensures
        session_valid(event_state(s, e).session),
{
}

/// The remaining time grows through an update alone: after any other event it
/// is at most what it was.
pub proof fn law_remaining_grows_by_update_only(s: ShellView, e: ShellEventView)
    requires
        !(e matches ShellEventView::Command { command: CommandView::UpdateTimer { .. } }),
    ensures
        event_state(s, e).session.remaining <= s.session.remaining,
{
}

/// A failing event changes nothing.
pub proof fn law_failure_changes_nothing(s: ShellView, e: ShellEventView)
    requires
        event_outcome(s, e) is Err,
    ensures
        event_state(s, e) == s,
{
}

/// Only a validation error or a missing window is ever handed back to the
/// caller: a failed notification is not among the failures of an event.
pub proof fn law_failures_surface(s: ShellView, e: ShellEventView)
    requires
        event_outcome(s, e) is Err,
    ensures
        !(event_outcome(s, e)->Err_0 is NotificationDeliveryFailed),
{
}

/// Applying a command twice leaves the session and the windows as applying
/// it once does.
pub proof fn law_command_idempotent(s: ShellView, c: CommandView)
    ensures
        command_state(command_state(s, c), c).session == command_state(s, c).session,
        command_state(command_state(s, c), c).windows == command_state(s, c).windows,
{
    let once = command_state(s, c);
    if c is CloseTimerWindow {
        assert(!after_close(s.windows, timer_widget()).contains_key(timer_widget()));
    }
}

/// The windows at application start are valid, and so is a registry without
/// any window.
pub proof fn law_initial_windows_valid()
    ensures
        windows_valid(initial_windows()),
        windows_valid(Map::<Seq<char>, WindowStatus>::empty()),
        visibility_in(initial_windows(), main_window()) == Visibility::Shown,
        visibility_in(initial_windows(), timer_widget()) == Visibility::Closed,
{
    lemma_names_differ();
    let m = initial_windows();
    assert(m.dom() =~= Set::<Seq<char>>::empty().insert(main_window()));
}

/// Showing, hiding, focusing, closing and registering a window keep the
/// windows valid.
pub proof fn law_window_steps_keep_valid(m: Map<Seq<char>, WindowStatus>, id: Seq<char>, shown: bool)
    requires
        windows_valid(m),
    ensures
        windows_valid(after_show(m, id)),
        windows_valid(after_hide(m, id)),
        windows_valid(after_focus(m, id)),
        windows_valid(after_close(m, id)),
        !m.contains_key(id) ==> windows_valid(after_open(m, id, shown)),
{
    assert(windows_valid(after_show(m, id))) by {
        let n = after_show(m, id);
        assert forall|a: Seq<char>, b: Seq<char>|
            #[trigger] n.contains_key(a) && #[trigger] n.contains_key(b) && n[a].focused
                && n[b].focused implies a == b by {
            assert(m.contains_key(a) && m.contains_key(b));
        }
    }
    assert(windows_valid(after_hide(m, id))) by {
        let n = after_hide(m, id);
        assert forall|a: Seq<char>, b: Seq<char>|
            #[trigger] n.contains_key(a) && #[trigger] n.contains_key(b) && n[a].focused
                && n[b].focused implies a == b by {
            assert(m.contains_key(a) && m.contains_key(b));
        }
    }
    assert(windows_valid(after_focus(m, id))) by {
        let n = after_focus(m, id);
        assert(n.dom() =~= m.dom());
    }
    assert(windows_valid(after_close(m, id))) by {
        let n = after_close(m, id);
        assert forall|a: Seq<char>, b: Seq<char>|
            #[trigger] n.contains_key(a) && #[trigger] n.contains_key(b) && n[a].focused
                && n[b].focused implies a == b by {
            assert(m.contains_key(a) && m.contains_key(b));
        }
    }
    if !m.contains_key(id) {
        let n = after_open(m, id, shown);
        assert forall|a: Seq<char>, b: Seq<char>|
            #[trigger] n.contains_key(a) && #[trigger] n.contains_key(b) && n[a].focused
                && n[b].focused implies a == b by {
            assert(m.contains_key(a) && m.contains_key(b));
        }
    }
}

/// Every event keeps the windows valid.
pub proof fn law_events_keep_windows_valid(s: ShellView, e: ShellEventView)
    requires
        windows_valid(s.windows),
    ensures
        windows_valid(event_state(s, e).windows),
{
    law_window_steps_keep_valid(s.windows, main_window(), true);
    law_window_steps_keep_valid(after_show(s.windows, main_window()), main_window(), true);
    law_window_steps_keep_valid(s.windows, timer_widget(), true);
}

/// A window moves from hidden to shown and from shown to hidden, and from
/// either to closed.
pub proof fn law_visibility_transitions(m: Map<Seq<char>, WindowStatus>, id: Seq<char>)
    requires
        m.contains_key(id),
    ensures
        visibility_in(after_show(m, id), id) == Visibility::Shown,
        visibility_in(after_hide(m, id), id) == Visibility::Hidden,
        visibility_in(after_close(m, id), id) == Visibility::Closed,
        visibility_in(after_focus(m, id), id) == visibility_in(m, id),
{
}

/// Closed is terminal: no event registers a window, so one that is not
/// registered stays closed.
pub proof fn law_closed_is_terminal(s: ShellView, e: ShellEventView, id: Seq<char>)
    requires
        visibility_in(s.windows, id) == Visibility::Closed,
        windows_valid(s.windows),
    ensures
        visibility_in(event_state(s, e).windows, id) == Visibility::Closed,
{
}

/// No event closes the main window.
pub proof fn law_main_is_never_closed(s: ShellView, e: ShellEventView)
    requires
        s.windows.contains_key(main_window()),
    ensures
        event_state(s, e).windows.contains_key(main_window()),
{
    lemma_names_differ();
}

/// A primary click on the tray icon is no toggle: whatever the main window's
/// visibility was, it is then shown and holds the focus.
pub proof fn law_primary_click_reveals_main(s: ShellView)
    requires
        s.windows.contains_key(main_window()),
    ensures
        ({
            let click = ShellEventView::TrayIcon { kind: TrayIconEvent::PrimaryClick };
            let after = event_state(s, click);
            &&& visibility_in(after.windows, main_window()) == Visibility::Shown
            &&& focused_in(after.windows, main_window())
            &&& event_outcome(s, click) == event_outcome(s, ShellEventView::MenuItem { id: "show"@ })
            &&& after == event_state(s, ShellEventView::MenuItem { id: "show"@ })
        }),
{
    lemma_names_differ();
}

/// The "quit" item ends the process with exit code 0 in every state.
pub proof fn law_quit_is_unconditional(s: ShellView)
    ensures
        event_outcome(s, ShellEventView::MenuItem { id: "quit"@ }) == Ok::<
            Seq<EffectView>,
            ErrorView,
        >(seq![EffectView::Exit { code: 0 }]),
        event_state(s, ShellEventView::MenuItem { id: "quit"@ }) == s,
{
    lemma_names_differ();
}

/// A menu identifier that the layer does not know is ignored: nothing
/// changes, nothing is asked of the host, nothing is reported.
pub proof fn law_unknown_menu_item_is_ignored(s: ShellView, id: Seq<char>)
    requires
        id != "quit"@,
        id != "show"@,
        id != "hide"@,
    ensures
        event_outcome(s, ShellEventView::MenuItem { id }) == Ok::<Seq<EffectView>, ErrorView>(
            Seq::empty(),
        ),
        event_state(s, ShellEventView::MenuItem { id }) == s,
{
}

/// No tray event changes whether another window than the main one is
/// registered, nor its visibility; hiding the main window leaves every other
/// window as it is.
pub proof fn law_tray_moves_main_only(s: ShellView, e: ShellEventView, id: Seq<char>)
    requires
        !(e is Command),
        id != main_window(),
    ensures
        event_state(s, e).windows.contains_key(id) == s.windows.contains_key(id),
        visibility_in(event_state(s, e).windows, id) == visibility_in(s.windows, id),
        ({
            let hidden = event_state(s, ShellEventView::MenuItem { id: "hide"@ });
            hidden.windows.contains_key(id) ==> s.windows.contains_key(id) && hidden.windows[id]
                == s.windows[id]
        }),
        event_state(s, e).session == s.session,
{
    lemma_names_differ();
}

/// Every command is found again under its own name.
pub proof fn law_command_names_round_trip(kind: CommandKind)
    ensures
        command_named(command_name(kind)) == Some(kind),
{
    reveal_strlit("update_timer");
    reveal_strlit("toggle_timer_pause");
    reveal_strlit("reset_timer");
    reveal_strlit("task_completed");
    reveal_strlit("loop_completed");
    reveal_strlit("close_timer_window");
    let a = "update_timer"@;
    let b = "toggle_timer_pause"@;
    let c = "reset_timer"@;
    let d = "task_completed"@;
    let e = "loop_completed"@;
    let f = "close_timer_window"@;
    assert(a.len() == 12 && b.len() == 18 && c.len() == 11 && d.len() == 14 && e.len() == 14
        && f.len() == 18);
    assert(d[0] == 't' && e[0] == 'l');
    assert(b[0] == 't' && f[0] == 'c');
}

} // verus!
