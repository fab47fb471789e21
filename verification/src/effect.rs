//! What the coordination layer asks its host to do.

use vstd::prelude::*;
use crate::error::ErrorView;
use crate::error::ShellError;
use crate::window::KnownWindow;

verus! {

/// An event that is broadcast to a window, as plain mathematical values.
pub enum OutboundEventView {
    TimerUpdate { task_name: Seq<char>, duration: nat, remaining: nat },
    TimerPauseState { is_paused: bool },
    TimerReset,
}

/// An event that is broadcast to a window.
#[derive(Debug, PartialEq, Eq)]
pub enum OutboundEvent {
    /// The session's task, duration and remaining time were overwritten.
    TimerUpdate { task_name: String, duration: u32, remaining: u32 },
    /// The paused flag was set.
    TimerPauseState { is_paused: bool },
    /// The session was reset; no payload.
    TimerReset,
}

impl View for OutboundEvent {
    type V = OutboundEventView;

    open spec fn view(&self) -> OutboundEventView {
        match *self {
            OutboundEvent::TimerUpdate { task_name, duration, remaining } => {
                OutboundEventView::TimerUpdate {
                    task_name: task_name@,
                    duration: duration as nat,
                    remaining: remaining as nat,
                }
            },
            OutboundEvent::TimerPauseState { is_paused } => OutboundEventView::TimerPauseState {
                is_paused,
            },
            OutboundEvent::TimerReset => OutboundEventView::TimerReset,
        }
    }
}

/// The name under which an event is delivered.
pub open spec fn event_name(e: OutboundEventView) -> Seq<char> {
    match e {
        OutboundEventView::TimerUpdate { .. } => "timer-update"@,
        OutboundEventView::TimerPauseState { .. } => "timer-pause-state"@,
        OutboundEventView::TimerReset => "timer-reset"@,
    }
}

impl OutboundEvent {
    /// The name under which the event is delivered.
    pub fn name(&self) -> (name: &'static str)
        ensures
            name@ == event_name(self@),
    {
        match self {
            OutboundEvent::TimerUpdate { .. } => "timer-update",
            OutboundEvent::TimerPauseState { .. } => "timer-pause-state",
            OutboundEvent::TimerReset => "timer-reset",
        }
    }
}

/// What the host does to a window.
#[derive(Debug, Clone, Copy, PartialEq, Eq, Structural)]
pub enum WindowOp {
    Show,
    Hide,
    Focus,
    Close,
}

/// A request to the host, as plain mathematical values.
pub enum EffectView {
    Emit { window: KnownWindow, event: OutboundEventView },
    Notify { title: Seq<char>, body: Seq<char> },
    Window { window: KnownWindow, op: WindowOp },
    Exit { code: int },
}

/// A request to the host. The layer has already moved its own state; the host
/// carries the request out, best effort, and reports nothing back.
#[derive(Debug, PartialEq, Eq)]
pub enum Effect {
    /// Deliver an event to a window.
    Emit { window: KnownWindow, event: OutboundEvent },
    /// Hand a notification to the operating system.
    Notify { title: String, body: String },
    /// Show, hide, focus or close a window.
    Window { window: KnownWindow, op: WindowOp },
    /// End the process with this exit code.
    Exit { code: i32 },
}

impl View for Effect {
    type V = EffectView;

    open spec fn view(&self) -> EffectView {
        match *self {
            Effect::Emit { window, event } => EffectView::Emit { window, event: event@ },
            Effect::Notify { title, body } => EffectView::Notify { title: title@, body: body@ },
            Effect::Window { window, op } => EffectView::Window { window, op },
            Effect::Exit { code } => EffectView::Exit { code: code as int },
        }
    }
}

impl DeepView for Effect {
    type V = EffectView;

    open spec fn deep_view(&self) -> EffectView {
        self@
    }
}

/// What a command or a tray event returns, as plain mathematical values: the
/// requests to the host in order, or the error.
pub open spec fn outcome_view(res: Result<Vec<Effect>, ShellError>) -> Result<
    Seq<EffectView>,
    ErrorView,
> {
    match res {
        Ok(effects) => Ok(effects.deep_view()),
        Err(e) => Err(e@),
    }
}

/// No request at all.
pub(crate) fn no_effects() -> (effects: Vec<Effect>)
    ensures
        effects.deep_view() == Seq::<EffectView>::empty(),
{
    let effects: Vec<Effect> = Vec::new();
    assert(effects.deep_view() =~= Seq::<EffectView>::empty());
    effects
}

/// A single request.
pub(crate) fn one_effect(e: Effect) -> (effects: Vec<Effect>)
    ensures
        effects.deep_view() == seq![e@],
{
    let mut effects: Vec<Effect> = Vec::new();
    effects.push(e);
    assert(effects.deep_view() =~= seq![e@]);
    effects
}

/// Two requests, in this order.
pub(crate) fn two_effects(first: Effect, second: Effect) -> (effects: Vec<Effect>)
    ensures
        effects.deep_view() == seq![first@, second@],
{
    let mut effects: Vec<Effect> = Vec::new();
    effects.push(first);
    effects.push(second);
    assert(effects.deep_view() =~= seq![first@, second@]);
    effects
}

} // verus!
