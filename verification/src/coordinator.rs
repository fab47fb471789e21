//! The coordinator: one owner for the windows, the session, the dispatcher
//! and the tray, and one entry point for every event.

use vstd::prelude::*;
use crate::bridge::broadcast;
use crate::bridge::dispatched_once;
use crate::bridge::CommandBridge;
use crate::command::Command;
use crate::command::CommandView;
use crate::effect::outcome_view;
use crate::effect::Effect;
use crate::effect::EffectView;
use crate::effect::OutboundEventView;
use crate::effect::WindowOp;
use crate::error::ErrorView;
use crate::error::ShellError;
use crate::error::Violation;
use crate::notify::counted;
use crate::notify::notification_for;
use crate::notify::DispatcherView;
use crate::notify::NotificationDispatcher;
use crate::notify::NotificationEventView;
use crate::session::idle_session;
use crate::session::session_paused;
use crate::session::session_updated;
use crate::session::times_valid;
use crate::session::SessionState;
use crate::session::SessionView;
use crate::tray::icon_action;
use crate::tray::menu_action;
use crate::tray::outcome_of_action;
use crate::tray::windows_after_action;
use crate::tray::MenuAction;
use crate::tray::TrayController;
use crate::tray::TrayIconEvent;
use crate::tray::TrayMenuItem;
use crate::tray::TrayMenuItemView;
use crate::window::after_close;
use crate::window::after_open;
use crate::window::initial_windows;
use crate::window::timer_widget;
use crate::window::KnownWindow;
use crate::window::WindowRegistry;
use crate::window::WindowStatus;

verus! {

/// The state of the whole layer, as plain mathematical values.
pub struct ShellView {
    pub session: SessionView,
    pub windows: Map<Seq<char>, WindowStatus>,
    pub dispatcher: DispatcherView,
    pub menu: Seq<TrayMenuItemView>,
}

/// An event that the layer handles, as plain mathematical values.
pub enum ShellEventView {
    MenuItem { id: Seq<char> },
    TrayIcon { kind: TrayIconEvent },
    Command { command: CommandView },
}

/// An event that the layer handles.
#[derive(Debug, PartialEq, Eq)]
pub enum ShellEvent {
    /// A menu item of the tray was activated.
    MenuItem { id: String },
    /// The tray icon itself was clicked.
    TrayIcon { kind: TrayIconEvent },
    /// A command arrived from a window.
    Command { command: Command },
}

impl View for ShellEvent {
    type V = ShellEventView;

    open spec fn view(&self) -> ShellEventView {
        match *self {
            ShellEvent::MenuItem { id } => ShellEventView::MenuItem { id: id@ },
            ShellEvent::TrayIcon { kind } => ShellEventView::TrayIcon { kind },
            ShellEvent::Command { command } => ShellEventView::Command { command: command@ },
        }
    }
}

/// The state at application start: an idle session, the main window shown,
/// nothing dispatched, and the menu as it was built.
pub open spec fn initial_shell(menu: Seq<TrayMenuItemView>) -> ShellView {
    ShellView {
        session: idle_session(),
        windows: initial_windows(),
        dispatcher: DispatcherView { dispatched: 0, failed: 0 },
        menu,
    }
}

/// What a command returns in a state: the requests to the host, or the error.
pub open spec fn command_outcome(s: ShellView, c: CommandView) -> Result<
    Seq<EffectView>,
    ErrorView,
> {
    match c {
        CommandView::UpdateTimer { task_name, duration, remaining } => {
            if times_valid(duration, remaining) {
                Ok(
                    broadcast(
                        s.windows,
                        OutboundEventView::TimerUpdate { task_name, duration, remaining },
                    ),
                )
            } else {
                Err(ErrorView::Validation(Violation::RemainingExceedsDuration))
            }
        },
        CommandView::ToggleTimerPause { is_paused } => Ok(
            broadcast(s.windows, OutboundEventView::TimerPauseState { is_paused }),
        ),
        CommandView::ResetTimer => Ok(broadcast(s.windows, OutboundEventView::TimerReset)),
        CommandView::TaskCompleted { task_name } => Ok(
            seq![notification_for(NotificationEventView::TaskCompleted { task_name })],
        ),
        CommandView::LoopCompleted => Ok(
            seq![notification_for(NotificationEventView::LoopCompleted)],
        ),
        CommandView::CloseTimerWindow => {
            if s.windows.contains_key(timer_widget()) {
                Ok(
                    seq![
                        EffectView::Window { window: KnownWindow::TimerWidget, op: WindowOp::Close },
                    ],
                )
            } else {
                Err(ErrorView::WindowNotFound(timer_widget()))
            }
        },
    }
}

/// The state after a command. A command that fails leaves the state as it is.
pub open spec fn command_state(s: ShellView, c: CommandView) -> ShellView {
    if command_outcome(s, c) is Err {
        s
    } else {
        match c {
            CommandView::UpdateTimer { task_name, duration, remaining } => ShellView {
                session: session_updated(s.session, task_name, duration, remaining),
                ..s
            },
            CommandView::ToggleTimerPause { is_paused } => ShellView {
                session: session_paused(s.session, is_paused),
                ..s
            },
            CommandView::ResetTimer => ShellView { session: idle_session(), ..s },
            CommandView::TaskCompleted { .. } => ShellView {
                dispatcher: dispatched_once(s.dispatcher),
                ..s
            },
            CommandView::LoopCompleted => ShellView {
                session: idle_session(),
                dispatcher: dispatched_once(s.dispatcher),
                ..s
            },
            CommandView::CloseTimerWindow => ShellView {
                windows: after_close(s.windows, timer_widget()),
                ..s
            },
        }
    }
}

/// The tray action that an event stands for; a command stands for none.
pub open spec fn event_action(e: ShellEventView) -> MenuAction {
    match e {
        ShellEventView::MenuItem { id } => menu_action(id),
        ShellEventView::TrayIcon { kind } => icon_action(kind),
        ShellEventView::Command { .. } => MenuAction::Ignored,
    }
}

/// What an event returns in a state.
pub open spec fn event_outcome(s: ShellView, e: ShellEventView) -> Result<
    Seq<EffectView>,
    ErrorView,
> {
    match e {
        ShellEventView::Command { command } => command_outcome(s, command),
        _ => outcome_of_action(s.windows, event_action(e)),
    }
}

/// The state after an event. An event that fails leaves the state as it is.
pub open spec fn event_state(s: ShellView, e: ShellEventView) -> ShellView {
    match e {
        ShellEventView::Command { command } => command_state(s, command),
        _ => if event_outcome(s, e) is Err {
            s
        } else {
            ShellView { windows: windows_after_action(s.windows, event_action(e)), ..s }
        },
    }
}

/// The coordinator. Events are handled one at a time, each to completion.
#[derive(Debug)]
pub struct Coordinator {
    windows: WindowRegistry,
    bridge: CommandBridge,
    dispatcher: NotificationDispatcher,
    tray: TrayController,
}

impl View for Coordinator {
    type V = ShellView;

    closed spec fn view(&self) -> ShellView {
        ShellView {
            session: self.bridge@,
            windows: self.windows@,
            dispatcher: self.dispatcher@,
            menu: self.tray@,
        }
    }
}

impl Coordinator {
    /// The coordinator at application start, with the tray menu built from
    /// `menu_items`.
    pub fn new(menu_items: Vec<TrayMenuItem>) -> (c: Self)
        ensures
            c@ == initial_shell(menu_items.deep_view()),
    {
        Coordinator {
            windows: WindowRegistry::new(),
            bridge: CommandBridge::new(),
            dispatcher: NotificationDispatcher::new(),
            tray: TrayController::new(TrayController::build(menu_items)),
        }
    }

    /// The session as it stands.
    pub fn session(&self) -> (s: &SessionState)
        ensures
            s@ == self@.session,
    {
        self.bridge.session()
    }

    /// The windows as they stand.
    pub fn windows(&self) -> (w: &WindowRegistry)
        ensures
            w@ == self@.windows,
    {
        &self.windows
    }

    /// The dispatcher as it stands.
    pub fn dispatcher(&self) -> (d: &NotificationDispatcher)
        ensures
            d@ == self@.dispatcher,
    {
        &self.dispatcher
    }

    /// The tray controller.
    pub fn tray(&self) -> (t: &TrayController)
        ensures
            t@ == self@.menu,
    {
        &self.tray
    }

    /// Registers a window that the host has created, shown or hidden. An
    /// identifier that is already registered is refused and nothing changes.
    pub fn register_window(&mut self, id: &str, shown: bool) -> (res: Result<(), ShellError>)
        ensures
            old(self)@.windows.contains_key(id@) ==> res == Err::<(), ShellError>(
                ShellError::Validation(Violation::WindowAlreadyOpen),
            ) && *final(self) == *old(self),
            !old(self)@.windows.contains_key(id@) ==> res is Ok && final(self)@ == (ShellView {
                windows: after_open(old(self)@.windows, id@, shown),
                ..old(self)@
            }),
    {
        self.windows.open(id, shown)
    }

    /// Takes note of how the delivery of a notification ended. A failure is
    /// counted by the dispatcher and goes no further.
    pub fn settle_delivery(&mut self, outcome: Result<(), ShellError>)
        ensures
            final(self)@ == (ShellView {
                dispatcher: DispatcherView {
                    dispatched: old(self)@.dispatcher.dispatched,
                    failed: if outcome is Err {
                        counted(old(self)@.dispatcher.failed)
                    } else {
                        old(self)@.dispatcher.failed
                    },
                },
                ..old(self)@
            }),
    {
        self.dispatcher.absorb(outcome);
    }

    /// Applies a command. It either applies in full or fails and changes
    /// nothing.
    pub fn execute(&mut self, command: Command) -> (res: Result<Vec<Effect>, ShellError>)
        ensures
            outcome_view(res) == command_outcome(old(self)@, command@),
            final(self)@ == command_state(old(self)@, command@),
            res is Err ==> *final(self) == *old(self),
    {
        match command {
            Command::UpdateTimer { task_name, duration, remaining } => {
                self.bridge.update_timer(&self.windows, task_name, duration, remaining)
            },
            Command::ToggleTimerPause { is_paused } => {
                self.bridge.toggle_timer_pause(&self.windows, is_paused)
            },
            Command::ResetTimer => self.bridge.reset_timer(&self.windows),
            Command::TaskCompleted { task_name } => {
                self.bridge.task_completed(&mut self.dispatcher, task_name)
            },
            Command::LoopCompleted => self.bridge.loop_completed(&mut self.dispatcher),
            Command::CloseTimerWindow => self.bridge.close_timer_window(&mut self.windows),
        }
    }

    /// Handles one event: a tray event moves the windows, a command is
    /// applied. An event that fails changes nothing.
    pub fn handle(&mut self, event: ShellEvent) -> (res: Result<Vec<Effect>, ShellError>)
        ensures
            outcome_view(res) == event_outcome(old(self)@, event@),
            final(self)@ == event_state(old(self)@, event@),
            res is Err ==> *final(self) == *old(self),
    {
        match event {
            ShellEvent::MenuItem { id } => self.tray.on_menu_event(&mut self.windows, id.as_str()),
            ShellEvent::TrayIcon { kind } => self.tray.on_tray_icon_event(&mut self.windows, kind),
            ShellEvent::Command { command } => self.execute(command),
        }
    }
}

} // verus!
