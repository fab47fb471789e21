//! The record of the active timer session.

use vstd::prelude::*;
use crate::error::ShellError;
use crate::error::Violation;

verus! {

/// What a session holds, as plain mathematical values.
pub struct SessionView {
    pub task_name: Seq<char>,
    pub duration: nat,
    pub remaining: nat,
    pub paused: bool,
}

/// The session before any task has started: no name, no time, not paused.
pub open spec fn idle_session() -> SessionView {
    SessionView { task_name: Seq::<char>::empty(), duration: 0, remaining: 0, paused: false }
}

/// Whether a pair of times is acceptable: the remaining time does not exceed
/// the total duration.
pub open spec fn times_valid(duration: nat, remaining: nat) -> bool {
    remaining <= duration
}

/// The session after its task, duration and remaining time are overwritten.
/// The paused flag stays as it is.
pub open spec fn session_updated(
    s: SessionView,
    task_name: Seq<char>,
    duration: nat,
    remaining: nat,
) -> SessionView {
    SessionView { task_name, duration, remaining, paused: s.paused }
}

/// The session after its paused flag is set. The stored times stay as they are.
pub open spec fn session_paused(s: SessionView, paused: bool) -> SessionView {
    SessionView { paused, ..s }
}

/// The active timer session: task name, total duration and remaining time in
/// seconds, and the paused flag. The remaining time never exceeds the duration.
#[derive(Debug, PartialEq, Eq)]
pub struct SessionState {
    task_name: String,
    duration: u32,
    remaining: u32,
    paused: bool,
}

impl View for SessionState {
    type V = SessionView;

    closed spec fn view(&self) -> SessionView {
        SessionView {
            task_name: self.task_name@,
            duration: self.duration as nat,
            remaining: self.remaining as nat,
            paused: self.paused,
        }
    }
}

impl SessionState {
    #[verifier::type_invariant]
    spec fn within_duration(self) -> bool {
        self.remaining <= self.duration
    }

    /// A fresh session, idle.
    pub fn new() -> (s: Self)
        ensures
            s@ == idle_session(),
    {
        SessionState { task_name: String::new(), duration: 0, remaining: 0, paused: false }
    }

    /// The name of the current task; empty before the first task starts.
    pub fn task_name(&self) -> (name: &String)
        ensures
            name@ == self@.task_name,
    {
        &self.task_name
    }

    /// The total duration in seconds.
    pub fn duration(&self) -> (d: u32)
        ensures
            d == self@.duration,
    {
        self.duration
    }

    /// The remaining time in seconds.
    pub fn remaining(&self) -> (r: u32)
        ensures
            r == self@.remaining,
            r <= self@.duration,
    {
        proof {
            use_type_invariant(self);
        }
        self.remaining
    }

    /// Whether the session is paused.
    pub fn is_paused(&self) -> (p: bool)
        ensures
            p == self@.paused,
    {
        self.paused
    }

    /// Overwrites task name, duration and remaining time. Refuses, and changes
    /// nothing, when the remaining time exceeds the duration.
    pub fn update(&mut self, task_name: String, duration: u32, remaining: u32) -> (res: Result<
        (),
        ShellError,
    >)
        ensures
            remaining <= duration ==> res is Ok && final(self)@ == session_updated(
                old(self)@,
                task_name@,
                duration as nat,
                remaining as nat,
            ),
            remaining > duration ==> res == Err::<(), ShellError>(
                ShellError::Validation(Violation::RemainingExceedsDuration),
            ) && *final(self) == *old(self),
    {
        if remaining > duration {
            return Err(ShellError::Validation(Violation::RemainingExceedsDuration));
        }
        let paused = self.paused;
        *self = SessionState { task_name, duration, remaining, paused };
        Ok(())
    }

    /// Sets the paused flag; the stored times are untouched.
    pub fn set_paused(&mut self, paused: bool)
        ensures
            final(self)@ == session_paused(old(self)@, paused),
    {
        proof {
            use_type_invariant(&*self);
        }
        self.paused = paused;
    }

    /// Discards the session: back to idle.
    pub fn reset(&mut self)
        ensures
            final(self)@ == idle_session(),
    {
        *self = SessionState::new();
    }
}

} // verus!
