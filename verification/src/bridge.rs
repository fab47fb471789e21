//! The command bridge: validates inbound commands, moves the session and says
//! what is broadcast.

use vstd::prelude::*;
use crate::effect::no_effects;
use crate::effect::one_effect;
use crate::effect::outcome_view;
use crate::effect::Effect;
use crate::effect::EffectView;
use crate::effect::OutboundEvent;
use crate::effect::OutboundEventView;
use crate::effect::WindowOp;
use crate::error::ErrorView;
use crate::error::ShellError;
use crate::error::Violation;
use crate::notify::counted;
use crate::notify::notification_for;
use crate::notify::DispatcherView;
use crate::notify::NotificationDispatcher;
use crate::notify::NotificationEvent;
use crate::notify::NotificationEventView;
use crate::session::idle_session;
use crate::session::session_paused;
use crate::session::session_updated;
use crate::session::SessionState;
use crate::session::SessionView;
use crate::window::after_close;
use crate::window::main_window;
use crate::window::timer_widget;
use crate::window::visibility_in;
use crate::window::KnownWindow;
use crate::window::Visibility;
use crate::window::WindowRegistry;
use crate::window::WindowStatus;

verus! {

/// What is broadcast for an event: one delivery to the main window where it is
/// shown, nothing where it is hidden or missing. A dropped event is lost.
pub open spec fn broadcast(m: Map<Seq<char>, WindowStatus>, event: OutboundEventView) -> Seq<
    EffectView,
> {
    if visibility_in(m, main_window()) == Visibility::Shown {
        seq![EffectView::Emit { window: KnownWindow::Main, event }]
    } else {
        Seq::empty()
    }
}

/// The dispatcher after one more dispatch.
pub open spec fn dispatched_once(d: DispatcherView) -> DispatcherView {
    DispatcherView { dispatched: counted(d.dispatched), failed: d.failed }
}

/// The only mutator of the session. Each command either applies in full or
/// reports a failure and changes nothing.
#[derive(Debug, PartialEq, Eq)]
pub struct CommandBridge {
    session: SessionState,
}

impl View for CommandBridge {
    type V = SessionView;

    closed spec fn view(&self) -> SessionView {
        self.session@
    }
}

impl CommandBridge {
    /// A bridge with an idle session.
    pub fn new() -> (b: Self)
        ensures
            b@ == idle_session(),
    {
        CommandBridge { session: SessionState::new() }
    }

    /// The session as it stands.
    pub fn session(&self) -> (s: &SessionState)
        ensures
            s@ == self@,
    {
        &self.session
    }

    /// The request that delivers `event` to the main window, if it is shown.
    fn emit(windows: &WindowRegistry, event: OutboundEvent) -> (effects: Vec<Effect>)
        ensures
            effects.deep_view() == broadcast(windows@, event@),
    {
        match windows.visibility(KnownWindow::Main.id()) {
            Visibility::Shown => one_effect(Effect::Emit { window: KnownWindow::Main, event }),
            _ => no_effects(),
        }
    }

    /// Overwrites task name, duration and remaining time, and broadcasts the
    /// three. With a remaining time over the duration the command is refused:
    /// the session stays as it is and nothing is broadcast.
    pub fn update_timer(
        &mut self,
        windows: &WindowRegistry,
        task_name: String,
        duration: u32,
        remaining: u32,
    ) -> (res: Result<Vec<Effect>, ShellError>)
        ensures
            remaining <= duration ==> final(self)@ == session_updated(
                old(self)@,
                task_name@,
                duration as nat,
                remaining as nat,
            ) && outcome_view(res) == Ok::<Seq<EffectView>, ErrorView>(
                broadcast(
                    windows@,
                    OutboundEventView::TimerUpdate {
                        task_name: task_name@,
                        duration: duration as nat,
                        remaining: remaining as nat,
                    },
                ),
            ),
            remaining > duration ==> *final(self) == *old(self) && outcome_view(res) == Err::<
                Seq<EffectView>,
                ErrorView,
            >(ErrorView::Validation(Violation::RemainingExceedsDuration)),
    {
        self.session.update(task_name.clone(), duration, remaining)?;
        Ok(Self::emit(windows, OutboundEvent::TimerUpdate { task_name, duration, remaining }))
    }

    /// Sets the paused flag and broadcasts it. Never fails.
    pub fn toggle_timer_pause(&mut self, windows: &WindowRegistry, is_paused: bool) -> (res:
        Result<Vec<Effect>, ShellError>)
        ensures
            final(self)@ == session_paused(old(self)@, is_paused),
            outcome_view(res) == Ok::<Seq<EffectView>, ErrorView>(
                broadcast(windows@, OutboundEventView::TimerPauseState { is_paused }),
            ),
    {
        self.session.set_paused(is_paused);
        Ok(Self::emit(windows, OutboundEvent::TimerPauseState { is_paused }))
    }

    /// Resets the session to idle and broadcasts the reset. Never fails.
    pub fn reset_timer(&mut self, windows: &WindowRegistry) -> (res: Result<
        Vec<Effect>,
        ShellError,
    >)
        ensures
            final(self)@ == idle_session(),
            outcome_view(res) == Ok::<Seq<EffectView>, ErrorView>(
                broadcast(windows@, OutboundEventView::TimerReset),
            ),
    {
        self.session.reset();
        Ok(Self::emit(windows, OutboundEvent::TimerReset))
    }

    /// Forwards a completed task to the dispatcher. The session is not
    /// touched. Never fails.
    pub fn task_completed(&self, dispatcher: &mut NotificationDispatcher, task_name: String) -> (res:
        Result<Vec<Effect>, ShellError>)
        ensures
            final(dispatcher)@ == dispatched_once(old(dispatcher)@),
            outcome_view(res) == Ok::<Seq<EffectView>, ErrorView>(
                seq![
                    notification_for(NotificationEventView::TaskCompleted { task_name: task_name@ }),
                ],
            ),
    {
        let effect = dispatcher.dispatch(NotificationEvent::TaskCompleted { task_name });
        Ok(one_effect(effect))
    }

    /// Resets the session to idle and forwards a completed loop to the
    /// dispatcher. Nothing is broadcast. Never fails.
    pub fn loop_completed(&mut self, dispatcher: &mut NotificationDispatcher) -> (res: Result<
        Vec<Effect>,
        ShellError,
    >)
        ensures
            final(self)@ == idle_session(),
            final(dispatcher)@ == dispatched_once(old(dispatcher)@),
            outcome_view(res) == Ok::<Seq<EffectView>, ErrorView>(
                seq![notification_for(NotificationEventView::LoopCompleted)],
            ),
    {
        self.session.reset();
        let effect = dispatcher.dispatch(NotificationEvent::LoopCompleted);
        Ok(one_effect(effect))
    }

    /// Closes the timer widget. Where it is not registered, that is reported
    /// and nothing else happens.
    pub fn close_timer_window(&self, windows: &mut WindowRegistry) -> (res: Result<
        Vec<Effect>,
        ShellError,
    >)
        ensures
            old(windows)@.contains_key(timer_widget()) ==> final(windows)@ == after_close(
                old(windows)@,
                timer_widget(),
            ) && outcome_view(res) == Ok::<Seq<EffectView>, ErrorView>(
                seq![EffectView::Window { window: KnownWindow::TimerWidget, op: WindowOp::Close }],
            ),
            !old(windows)@.contains_key(timer_widget()) ==> *final(windows) == *old(windows)
                && outcome_view(res) == Err::<Seq<EffectView>, ErrorView>(
                ErrorView::WindowNotFound(timer_widget()),
            ),
    {
        windows.close(KnownWindow::TimerWidget.id())?;
        Ok(one_effect(Effect::Window { window: KnownWindow::TimerWidget, op: WindowOp::Close }))
    }
}

} // verus!
