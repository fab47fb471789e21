//! Failures that a command can report to its caller.

use vstd::prelude::*;
use vstd::string::StringExecFns;

verus! {

/// Why a command's arguments were refused.
#[derive(Debug, Clone, Copy, PartialEq, Eq, Structural)]
pub enum Violation {
    /// The remaining time is larger than the total duration.
    RemainingExceedsDuration,
    /// Only the timer widget may be closed by command.
    CloseNotPermitted,
    /// A window with this identifier is already registered.
    WindowAlreadyOpen,
}

/// The failures of the coordination layer.
#[derive(Debug, PartialEq, Eq)]
pub enum ShellError {
    /// The arguments of a command are malformed.
    Validation(Violation),
    /// The window that a command targets is not registered.
    WindowNotFound(String),
    /// The notification service did not take a notification.
    NotificationDeliveryFailed,
}

/// An error, as plain mathematical values.
pub enum ErrorView {
    Validation(Violation),
    WindowNotFound(Seq<char>),
    NotificationDeliveryFailed,
}

impl View for ShellError {
    type V = ErrorView;

    open spec fn view(&self) -> ErrorView {
        match *self {
            ShellError::Validation(v) => ErrorView::Validation(v),
            ShellError::WindowNotFound(id) => ErrorView::WindowNotFound(id@),
            ShellError::NotificationDeliveryFailed => ErrorView::NotificationDeliveryFailed,
        }
    }
}

/// The text that describes a violation.
pub open spec fn violation_text(v: Violation) -> Seq<char> {
    match v {
        Violation::RemainingExceedsDuration => "remaining time exceeds total duration"@,
        Violation::CloseNotPermitted => "only the timer widget can be closed"@,
        Violation::WindowAlreadyOpen => "window is already open"@,
    }
}

/// The text that describes an error.
pub open spec fn error_text(e: ErrorView) -> Seq<char> {
    match e {
        ErrorView::Validation(v) => "validation error: "@ + violation_text(v),
        ErrorView::WindowNotFound(id) => "window not found: "@ + id,
        ErrorView::NotificationDeliveryFailed => "notification delivery failed"@,
    }
}

/// Whether an error is handed back to the caller of a command. A failed
/// notification is not.
pub open spec fn error_surfaces(e: ErrorView) -> bool {
    !(e is NotificationDeliveryFailed)
}

impl Violation {
    /// A human-readable description of the violation.
    pub fn message(&self) -> (text: &'static str)
        ensures
            text@ == violation_text(*self),
    {
        match self {
            Violation::RemainingExceedsDuration => "remaining time exceeds total duration",
            Violation::CloseNotPermitted => "only the timer widget can be closed",
            Violation::WindowAlreadyOpen => "window is already open",
        }
    }
}

impl ShellError {
    /// A human-readable description of the error.
    pub fn message(&self) -> (text: String)
        ensures
            text@ == error_text(self@),
    {
        match self {
            ShellError::Validation(v) => {
                String::from_str("validation error: ").concat(v.message())
            },
            ShellError::WindowNotFound(id) => {
                String::from_str("window not found: ").concat(id.as_str())
            },
            ShellError::NotificationDeliveryFailed => {
                String::from_str("notification delivery failed")
            },
        }
    }

    /// Whether the error is handed back to the caller of a command. A failed
    /// notification is not: it stays inside the dispatcher.
    pub fn surfaces(&self) -> (yes: bool)
        ensures
            yes == error_surfaces(self@),
    {
        match self {
            ShellError::NotificationDeliveryFailed => false,
            _ => true,
        }
    }
}

} // verus!
