use powerkey::event::{Event, EventKind, Input, InputEvent};
use powerkey::key::Key;
use powerkey::printable::PrintableEvent;
use powerkey::text::decimal;
use powerkey::time::{Duration, Timestamp};

#[test]
fn duration_since_of_a_later_instant() {
    let earlier = Timestamp::from_nanos(1_000);
    let later = Timestamp::from_nanos(51_001_000);
    assert_eq!(later.duration_since(earlier), Some(Duration { nanos: 51_000_000 }));
}

#[test]
fn duration_since_of_the_same_instant_is_zero() {
    let t = Timestamp::from_nanos(9);
    assert_eq!(t.duration_since(t), Some(Duration { nanos: 0 }));
}

#[test]
fn duration_since_underflow_gives_nothing() {
    let earlier = Timestamp::from_nanos(10);
    let later = Timestamp::from_nanos(11);
    assert_eq!(earlier.duration_since(later), None);
}

#[test]
fn duration_from_millis_and_back() {
    assert_eq!(Duration::from_millis(16), Duration { nanos: 16_000_000 });
    assert_eq!(Duration::from_millis(u64::MAX).nanos, u64::MAX as u128 * 1_000_000);
    assert_eq!(Duration { nanos: 50_999_999 }.as_millis(), 50);
    assert_eq!(Duration { nanos: 999_999 }.as_millis(), 0);
}

#[test]
fn decimal_numerals() {
    assert_eq!(decimal(0), "0");
    assert_eq!(decimal(7), "7");
    assert_eq!(decimal(10), "10");
    assert_eq!(decimal(1234567890), "1234567890");
    assert_eq!(decimal(u128::MAX), u128::MAX.to_string());
}

#[test]
fn key_names() {
    assert_eq!(Key::KeyA.name(), "KeyA");
    assert_eq!(Key::Alt.name(), "Alt");
    assert_eq!(Key::F10.name(), "F10");
    assert_eq!(Key::IntlBackslash.name(), "IntlBackslash");
    assert_eq!(Key::Function.name(), "Function");
    assert_eq!(Key::Unknown(0).name(), "Unknown(0)");
    assert_eq!(Key::Unknown(4242).name(), "Unknown(4242)");
    assert_eq!(Key::Unknown(u32::MAX).name(), "Unknown(4294967295)");
}

#[test]
fn key_name_is_the_debug_text() {
    let keys = [Key::KeyZ, Key::Num0, Key::KpDelete, Key::ShiftLeft, Key::Unknown(17)];
    for key in keys {
        assert_eq!(key.name(), format!("{:?}", key));
    }
}

fn printable(kind: EventKind) -> PrintableEvent {
    PrintableEvent(Event::new(Timestamp::from_nanos(0), kind))
}

#[test]
fn printable_key_press_and_release() {
    let press = printable(EventKind::Input(Input(InputEvent::KeyPress(Key::KeyA))));
    let release = printable(EventKind::Input(Input(InputEvent::KeyRelease(Key::Escape))));
    assert_eq!(press.to_string(), "Press KeyA");
    assert_eq!(release.to_string(), "Release Escape");
}

#[test]
fn printable_focus_change() {
    let event = printable(EventKind::FocusChange { window_title: "Notepad".to_string() });
    assert_eq!(event.to_string(), "Window changed to \"Notepad\"");
}

#[test]
fn printable_delay_shows_whole_milliseconds() {
    let event = printable(EventKind::Delay(Duration { nanos: 50_400_000 }));
    assert_eq!(event.to_string(), "50ms delay");
    let short = printable(EventKind::Delay(Duration { nanos: 1 }));
    assert_eq!(short.to_string(), "0ms delay");
}

#[test]
fn printable_yield_focus() {
    let event = printable(EventKind::YieldFocus);
    assert_eq!(event.to_string(), "Restore previous window and simulate its inputs");
}

#[test]
fn event_new_keeps_its_parts() {
    let event = Event::new(Timestamp::from_nanos(3), EventKind::YieldFocus);
    assert_eq!(event.time, Timestamp { nanos: 3 });
    assert_eq!(event.kind, EventKind::YieldFocus);
    assert_eq!(event.clone(), event);
}

#[test]
fn event_kind_input_and_yield() {
    let input = EventKind::Input(Input(InputEvent::KeyPress(Key::KeyB)));
    assert_eq!(input.input(), Some(InputEvent::KeyPress(Key::KeyB)));
    assert_eq!(EventKind::YieldFocus.input(), None);
    assert!(EventKind::YieldFocus.is_yield_focus());
    assert!(!input.is_yield_focus());
}
