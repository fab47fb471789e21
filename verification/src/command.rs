//! The inbound commands and the names under which they arrive.

use vstd::prelude::*;
use vstd::string::StringExecFns;

verus! {

/// The commands that this layer takes, without their arguments.
#[derive(Debug, Clone, Copy, PartialEq, Eq, Structural)]
pub enum CommandKind {
    UpdateTimer,
    ToggleTimerPause,
    ResetTimer,
    TaskCompleted,
    LoopCompleted,
    CloseTimerWindow,
}

/// The name under which a command arrives.
pub open spec fn command_name(kind: CommandKind) -> Seq<char> {
    match kind {
        CommandKind::UpdateTimer => "update_timer"@,
        CommandKind::ToggleTimerPause => "toggle_timer_pause"@,
        CommandKind::ResetTimer => "reset_timer"@,
        CommandKind::TaskCompleted => "task_completed"@,
        CommandKind::LoopCompleted => "loop_completed"@,
        CommandKind::CloseTimerWindow => "close_timer_window"@,
    }
}

/// The command that a name stands for, if any.
pub open spec fn command_named(name: Seq<char>) -> Option<CommandKind> {
    if name == command_name(CommandKind::UpdateTimer) {
        Some(CommandKind::UpdateTimer)
    } else if name == command_name(CommandKind::ToggleTimerPause) {
        Some(CommandKind::ToggleTimerPause)
    } else if name == command_name(CommandKind::ResetTimer) {
        Some(CommandKind::ResetTimer)
    } else if name == command_name(CommandKind::TaskCompleted) {
        Some(CommandKind::TaskCompleted)
    } else if name == command_name(CommandKind::LoopCompleted) {
        Some(CommandKind::LoopCompleted)
    } else if name == command_name(CommandKind::CloseTimerWindow) {
        Some(CommandKind::CloseTimerWindow)
    } else {
        None
    }
}

impl CommandKind {
    /// The name under which the command arrives.
    pub fn name(self) -> (name: &'static str)
        ensures
            name@ == command_name(self),
    {
        match self {
            CommandKind::UpdateTimer => "update_timer",
            CommandKind::ToggleTimerPause => "toggle_timer_pause",
            CommandKind::ResetTimer => "reset_timer",
            CommandKind::TaskCompleted => "task_completed",
            CommandKind::LoopCompleted => "loop_completed",
            CommandKind::CloseTimerWindow => "close_timer_window",
        }
    }

    /// The command that `name` stands for; `None` for a name that this layer
    /// does not know.
    pub fn from_name(name: &str) -> (kind: Option<CommandKind>)
        ensures
            kind == command_named(name@),
    {
        let key = String::from_str(name);
        if key == String::from_str("update_timer") {
            Some(CommandKind::UpdateTimer)
        } else if key == String::from_str("toggle_timer_pause") {
            Some(CommandKind::ToggleTimerPause)
        } else if key == String::from_str("reset_timer") {
            Some(CommandKind::ResetTimer)
        } else if key == String::from_str("task_completed") {
            Some(CommandKind::TaskCompleted)
        } else if key == String::from_str("loop_completed") {
            Some(CommandKind::LoopCompleted)
        } else if key == String::from_str("close_timer_window") {
            Some(CommandKind::CloseTimerWindow)
        } else {
            None
        }
    }
}

/// A command with its arguments, as plain mathematical values.
pub enum CommandView {
    UpdateTimer { task_name: Seq<char>, duration: nat, remaining: nat },
    ToggleTimerPause { is_paused: bool },
    ResetTimer,
    TaskCompleted { task_name: Seq<char> },
    LoopCompleted,
    CloseTimerWindow,
}

/// A command with its arguments.
#[derive(Debug, PartialEq, Eq)]
pub enum Command {
    UpdateTimer { task_name: String, duration: u32, remaining: u32 },
    ToggleTimerPause { is_paused: bool },
    ResetTimer,
    TaskCompleted { task_name: String },
    LoopCompleted,
    CloseTimerWindow,
}

impl View for Command {
    type V = CommandView;

    open spec fn view(&self) -> CommandView {
        match *self {
            Command::UpdateTimer { task_name, duration, remaining } => CommandView::UpdateTimer {
                task_name: task_name@,
                duration: duration as nat,
                remaining: remaining as nat,
            },
            Command::ToggleTimerPause { is_paused } => CommandView::ToggleTimerPause { is_paused },
            Command::ResetTimer => CommandView::ResetTimer,
            Command::TaskCompleted { task_name } => CommandView::TaskCompleted {
                task_name: task_name@,
            },
            Command::LoopCompleted => CommandView::LoopCompleted,
            Command::CloseTimerWindow => CommandView::CloseTimerWindow,
        }
    }
}

/// The kind of a command.
pub open spec fn kind_of(c: CommandView) -> CommandKind {
    match c {
        CommandView::UpdateTimer { .. } => CommandKind::UpdateTimer,
        CommandView::ToggleTimerPause { .. } => CommandKind::ToggleTimerPause,
        CommandView::ResetTimer => CommandKind::ResetTimer,
        CommandView::TaskCompleted { .. } => CommandKind::TaskCompleted,
        CommandView::LoopCompleted => CommandKind::LoopCompleted,
        CommandView::CloseTimerWindow => CommandKind::CloseTimerWindow,
    }
}

impl Command {
    /// The kind of the command.
    pub fn kind(&self) -> (kind: CommandKind)
        ensures
            kind == kind_of(self@),
    {
        match self {
            Command::UpdateTimer { .. } => CommandKind::UpdateTimer,
            Command::ToggleTimerPause { .. } => CommandKind::ToggleTimerPause,
            Command::ResetTimer => CommandKind::ResetTimer,
            Command::TaskCompleted { .. } => CommandKind::TaskCompleted,
            Command::LoopCompleted => CommandKind::LoopCompleted,
            Command::CloseTimerWindow => CommandKind::CloseTimerWindow,
        }
    }
}

} // verus!
