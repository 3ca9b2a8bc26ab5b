//! The events that a macro is made of.

use crate::key::Key;
use crate::time::{Duration, Timestamp};
use vstd::prelude::*;

verus! {

/// A keyboard input: a key going down or coming up.
#[derive(Clone, Copy, Debug, PartialEq, Eq, Structural, Hash)]
pub enum InputEvent {
    KeyPress(Key),
    KeyRelease(Key),
}

/// An input as it stands in a recorded macro.
#[derive(Clone, Copy, Debug, PartialEq, Eq, Structural, Hash)]
pub struct Input(pub InputEvent);

/// What a recorded event asks of the player.
#[derive(Debug, PartialEq)]
pub enum EventKind {
    /// A key press or release to play, or that was recorded.
    Input(Input),
    /// Bring the window with this title to the foreground.
    FocusChange { window_title: String },
    /// Pause for the given time.
    Delay(Duration),
    /// The end of an interlude in a foreign application.
    YieldFocus,
}

/// One entry of a recorded macro.
#[derive(Debug, PartialEq)]
pub struct Event {
    pub time: Timestamp,
    pub kind: EventKind,
}

impl Clone for EventKind {
    fn clone(&self) -> (r: Self)
        ensures
            r == *self,
    {
        match self {
            EventKind::Input(input) => EventKind::Input(*input),
            EventKind::FocusChange { window_title } => EventKind::FocusChange {
                window_title: window_title.clone(),
            },
            EventKind::Delay(duration) => EventKind::Delay(*duration),
            EventKind::YieldFocus => EventKind::YieldFocus,
        }
    }
}

impl Clone for Event {
    fn clone(&self) -> (r: Self)
        ensures
            r == *self,
    {
        Event { time: self.time, kind: self.kind.clone() }
    }
}

impl EventKind {
    /// The input that the event carries, if it is an input.
    pub open spec fn spec_input(self) -> Option<InputEvent> {
        match self {
            EventKind::Input(Input(input)) => Some(input),
            _ => None,
        }
    }

    /// The input that the event carries, if it is an input.
    pub fn input(&self) -> (r: Option<InputEvent>)
        ensures
            r == self.spec_input(),
    {
        match self {
            EventKind::Input(Input(input)) => Some(*input),
            _ => None,
        }
    }

    /// Whether the event marks the end of a foreign-application interlude.
    pub fn is_yield_focus(&self) -> (r: bool)
        ensures
            r == (*self is YieldFocus),
    {
        match self {
            EventKind::YieldFocus => true,
            _ => false,
        }
    }
}

impl Event {
    pub fn new(time: Timestamp, kind: EventKind) -> (r: Self)
        ensures
            r.time == time,
            r.kind == kind,
    {
        Self { time, kind }
    }
}

} // verus!
