//! The events of a macro as lines of text.

use crate::event::{Event, EventKind, Input, InputEvent};
use crate::text::{decimal, decimal_digits};
use crate::time::{Duration, NANOS_PER_MILLI};
use vstd::prelude::*;
use vstd::string::StringExecFns;

verus! {

/// An event of the macro as the list shows it.
#[derive(Debug, PartialEq)]
pub struct PrintableEvent(pub Event);

impl Clone for PrintableEvent {
    fn clone(&self) -> (r: Self)
        ensures
            r == *self,
    {
        PrintableEvent(self.0.clone())
    }
}

/// The line that the list shows for an input.
pub open spec fn input_text(input: InputEvent) -> Seq<char> {
    match input {
        InputEvent::KeyPress(key) => "Press "@ + key.spec_name(),
        InputEvent::KeyRelease(key) => "Release "@ + key.spec_name(),
    }
}

/// The line that the list shows for a pause: its whole milliseconds in
/// decimal, and the words `ms delay`.
pub open spec fn delay_text(duration: Duration) -> Seq<char> {
    decimal_digits((duration.nanos / NANOS_PER_MILLI) as nat) + "ms delay"@
}

/// The line that the list shows for an event.
pub open spec fn event_text(kind: EventKind) -> Seq<char> {
    match kind {
        EventKind::Input(Input(input)) => input_text(input),
        EventKind::FocusChange { window_title } => "Window changed to \""@ + window_title@
            + "\""@,
        EventKind::Delay(duration) => delay_text(duration),
        EventKind::YieldFocus => "Restore previous window and simulate its inputs"@,
    }
}

impl PrintableEvent {
    /// The line that the list shows for the event.
    pub fn to_string(&self) -> (r: String)
        ensures
            r@ == event_text(self.0.kind),
    {
        match &self.0.kind {
            EventKind::Input(Input(input)) => match input {
                InputEvent::KeyPress(key) => {
                    let mut text = String::from_str("Press ");
                    let name = key.name();
                    text.append(name.as_str());
                    text
                },
                InputEvent::KeyRelease(key) => {
                    let mut text = String::from_str("Release ");
                    let name = key.name();
                    text.append(name.as_str());
                    text
                },
            },
            EventKind::FocusChange { window_title } => {
                let mut text = String::from_str("Window changed to \"");
                text.append(window_title.as_str());
                text.append("\"");
                text
            },
            EventKind::Delay(duration) => {
                let mut text = decimal(duration.as_millis());
                text.append("ms delay");
                text
            },
            EventKind::YieldFocus => String::from_str(
                "Restore previous window and simulate its inputs",
            ),
        }
    }
}

/// The events that a list of list entries stands for.
pub open spec fn events_of(items: Seq<PrintableEvent>) -> Seq<Event> {
    items.map_values(|item: PrintableEvent| item.0)
}

} // verus!
