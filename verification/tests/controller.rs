use powerkey::controller::{
    Command, Effect, GlobalEventTrigger, ListCommand, Message, Modifiers, PlaybackMode, State,
    Trigger,
};
use powerkey::event::{Event, EventKind, Input, InputEvent};
use powerkey::key::Key;
use powerkey::listener;
use powerkey::missed::MissedEvent;
use powerkey::player;
use powerkey::printable::PrintableEvent;
use powerkey::time::{Duration, Timestamp};

fn at(nanos: u128) -> Timestamp {
    Timestamp::from_nanos(nanos)
}

fn press(key: Key) -> Event {
    Event::new(at(0), EventKind::Input(Input(InputEvent::KeyPress(key))))
}

fn release(key: Key) -> Event {
    Event::new(at(0), EventKind::Input(Input(InputEvent::KeyRelease(key))))
}

fn press_at(nanos: u128, key: Key) -> Event {
    Event::new(at(nanos), EventKind::Input(Input(InputEvent::KeyPress(key))))
}

fn delay(nanos: u128) -> Event {
    Event::new(at(0), EventKind::Delay(Duration { nanos }))
}

fn state_with(events: Vec<Event>) -> State {
    let items = events.into_iter().map(PrintableEvent).collect();
    State::new(items).0
}

fn list(index: usize) -> Command {
    Command::ItemList(ListCommand::SelectItem(index))
}

fn global(message: GlobalEventTrigger) -> Message {
    Message::Trigger(Trigger::GlobalEvent(message))
}

fn recording() -> State {
    let mut state = state_with(vec![]);
    state.update(global(GlobalEventTrigger::ListenerReady), at(0));
    state.update(Message::Command(Command::StartRecording), at(0));
    state.update(global(GlobalEventTrigger::ListenerModeJustChanged(listener::Mode::Listen)), at(0));
    state
}

fn playing(events: Vec<Event>) -> State {
    let mut state = state_with(events);
    state.update(global(GlobalEventTrigger::ListenerReady), at(0));
    state.update(global(GlobalEventTrigger::PlayerReady), at(0));
    state.update(Message::Command(Command::StartPlayback), at(0));
    state.update(
        global(GlobalEventTrigger::ListenerModeJustChanged(listener::Mode::grab(vec![]))),
        at(0),
    );
    state.update(global(GlobalEventTrigger::PlayerPlaybackJustStarted), at(0));
    state
}

#[test]
fn a_new_controller_asks_to_stay_on_top() {
    let (state, effects) = State::new(vec![PrintableEvent(press(Key::KeyA))]);
    assert_eq!(effects, vec![Effect::Dispatch(Command::SetAlwaysOnTop(true))]);
    assert_eq!(state.playback_mode, PlaybackMode::Idle);
    assert_eq!(state.current_listener_mode, listener::Mode::Disabled);
    assert!(state.always_on_top);
    assert!(!state.window_known);
    assert!(!state.listener_connected);
    assert!(!state.player_connected);
    assert_eq!(state.modifiers, Modifiers { control: false, shift: false });
    assert_eq!(state.events(), vec![press(Key::KeyA)]);
    assert_eq!(state.selected_items_state.iter(), Vec::<usize>::new());
    assert_eq!(state.title(), "Powerkey");
    assert_eq!(PlaybackMode::default(), PlaybackMode::Idle);
}

#[test]
fn buttons_put_their_commands() {
    let mut state = state_with(vec![]);
    let cases = vec![
        (Trigger::RecordButton, Command::StartRecording),
        (Trigger::PlayButton, Command::StartPlayback),
        (Trigger::StopButton, Command::Stop),
        (Trigger::AddYieldButton, Command::AddYieldEventAfterSelected),
        (Trigger::AlwaysOnTopCheckbox(false), Command::SetAlwaysOnTop(false)),
        (Trigger::WindowId, Command::SetWindowId),
    ];
    for (trigger, command) in cases {
        assert_eq!(state.handle_trigger(trigger, at(1)), vec![Effect::Dispatch(command)]);
    }
    assert_eq!(state.playback_mode, PlaybackMode::Idle);
}

#[test]
fn start_recording_clears_the_list_and_listens() {
    let mut state = state_with(vec![press(Key::KeyA), release(Key::KeyA)]);
    let effects = state.handle_command(Command::StartRecording, at(1));
    assert_eq!(
        effects,
        vec![Effect::ToListener(listener::Command::ChangeMode(listener::Mode::Listen))]
    );
    assert_eq!(state.playback_mode, PlaybackMode::Record);
    assert_eq!(state.events(), Vec::<Event>::new());
}

#[test]
fn start_playback_hands_the_list_to_the_player() {
    let mut state = state_with(vec![press(Key::KeyA), release(Key::KeyA)]);
    state.update(global(GlobalEventTrigger::ListenerReady), at(0));
    let effects = state.handle_command(Command::StartPlayback, at(1));
    assert_eq!(
        effects,
        vec![Effect::ToPlayer(player::Command::InitializePlayback(vec![
            press(Key::KeyA),
            release(Key::KeyA)
        ]))]
    );
    assert_eq!(state.playback_mode, PlaybackMode::PlayerWaitsForGrab);
    assert_eq!(state.events(), vec![press(Key::KeyA), release(Key::KeyA)]);
}

#[test]
fn start_playback_without_listener_does_nothing() {
    let mut state = state_with(vec![press(Key::KeyA)]);
    let effects = state.handle_command(Command::StartPlayback, at(1));
    assert_eq!(effects, Vec::<Effect>::new());
    assert_eq!(state.playback_mode, PlaybackMode::Idle);
}

#[test]
fn grab_handshake() {
    let mut state = state_with(vec![press(Key::KeyA)]);
    state.update(global(GlobalEventTrigger::ListenerReady), at(0));
    state.handle_command(Command::StartPlayback, at(1));
    let grab = listener::Mode::grab(vec![InputEvent::KeyPress(Key::KeyA)]);
    let effects = state.update(global(GlobalEventTrigger::ListenerModeJustChanged(grab.clone())), at(2));
    assert_eq!(effects, vec![Effect::ToPlayer(player::Command::NotifyGrabReady)]);
    assert_eq!(state.current_listener_mode, grab);
    assert_eq!(state.playback_mode, PlaybackMode::PlayerWaitsForGrab);
    let effects = state.update(global(GlobalEventTrigger::PlayerPlaybackJustStarted), at(3));
    assert_eq!(effects, Vec::<Effect>::new());
    assert_eq!(state.playback_mode, PlaybackMode::Play);
}

#[test]
fn mode_change_without_waiting_player_only_updates_the_snapshot() {
    let mut state = state_with(vec![]);
    let grab = listener::Mode::grab(vec![]);
    let effects = state.update(global(GlobalEventTrigger::ListenerModeJustChanged(grab.clone())), at(2));
    assert_eq!(effects, Vec::<Effect>::new());
    assert_eq!(state.current_listener_mode, grab);
    let mut state = state_with(vec![press(Key::KeyA)]);
    state.update(global(GlobalEventTrigger::ListenerReady), at(0));
    state.handle_command(Command::StartPlayback, at(1));
    let effects =
        state.update(global(GlobalEventTrigger::ListenerModeJustChanged(listener::Mode::Listen)), at(2));
    assert_eq!(effects, Vec::<Effect>::new());
}

#[test]
fn ignore_list_done_is_passed_on_to_the_player() {
    let mut state = state_with(vec![]);
    let effects = state.update(global(GlobalEventTrigger::ListenerAddGrabIgnoreListDone), at(2));
    assert_eq!(effects, vec![Effect::ToPlayer(player::Command::NotifyMissedEventsAddedToGrabber)]);
}

#[test]
fn playback_end_puts_a_stop() {
    let mut state = playing(vec![press(Key::KeyA)]);
    let effects = state.update(global(GlobalEventTrigger::PlayerPlaybackJustEnded), at(2));
    assert_eq!(effects, vec![Effect::Dispatch(Command::Stop)]);
    assert_eq!(state.playback_mode, PlaybackMode::Play);
}

#[test]
fn just_played_selects_the_item() {
    let mut state = playing(vec![press(Key::KeyA), release(Key::KeyA)]);
    state.update(global(GlobalEventTrigger::PlayerJustPlayed(1)), at(2));
    assert_eq!(state.selected_items_state.iter(), vec![1]);
}

#[test]
fn stop_while_playing_disables_the_listener_and_stops_the_player() {
    let mut state = playing(vec![press(Key::KeyA)]);
    let effects = state.handle_command(Command::Stop, at(5));
    assert_eq!(
        effects,
        vec![
            Effect::ToListener(listener::Command::ChangeMode(listener::Mode::Disabled)),
            Effect::ToPlayer(player::Command::StopPlayback),
        ]
    );
    assert_eq!(state.playback_mode, PlaybackMode::Idle);
}

#[test]
fn stop_while_idle_and_disabled_sends_nothing() {
    let mut state = state_with(vec![press(Key::KeyA)]);
    assert_eq!(state.handle_command(Command::Stop, at(5)), Vec::<Effect>::new());
    assert_eq!(state.playback_mode, PlaybackMode::Idle);
}

#[test]
fn stop_while_recording_before_the_listener_answered() {
    let mut state = state_with(vec![]);
    state.handle_command(Command::StartRecording, at(1));
    let effects = state.handle_command(Command::Stop, at(5));
    assert_eq!(effects, vec![Effect::ToPlayer(player::Command::StopPlayback)]);
    assert_eq!(state.playback_mode, PlaybackMode::Idle);
}

#[test]
fn always_on_top_needs_the_window() {
    let mut state = state_with(vec![]);
    let effects = state.handle_command(Command::SetAlwaysOnTop(false), at(1));
    assert_eq!(
        effects,
        vec![
            Effect::Dispatch(Command::TriggerWindowId),
            Effect::Dispatch(Command::SetAlwaysOnTop(false)),
        ]
    );
    assert!(state.always_on_top);
    assert_eq!(
        state.handle_command(Command::TriggerWindowId, at(1)),
        vec![Effect::RequestWindowId]
    );
    assert_eq!(state.handle_command(Command::SetWindowId, at(1)), Vec::<Effect>::new());
    assert!(state.window_known);
    let effects = state.handle_command(Command::SetAlwaysOnTop(false), at(1));
    assert_eq!(effects, vec![Effect::ChangeWindowLevel { always_on_top: false }]);
    assert!(!state.always_on_top);
}

#[test]
fn recording_puts_the_time_between_events_before_each() {
    let mut state = recording();
    let a = press_at(1_000_000_000, Key::KeyA);
    let b = press_at(1_050_000_000, Key::KeyB);
    let c = press_at(1_050_000_000, Key::KeyC);
    state.update(global(GlobalEventTrigger::Event(a.clone())), at(7));
    state.update(global(GlobalEventTrigger::Event(b.clone())), at(8));
    state.update(global(GlobalEventTrigger::Event(c.clone())), at(9));
    assert_eq!(
        state.events(),
        vec![
            a,
            Event::new(at(8), EventKind::Delay(Duration::from_millis(50))),
            b,
            Event::new(at(9), EventKind::Delay(Duration { nanos: 0 })),
            c,
        ]
    );
}

#[test]
fn recording_an_older_event_puts_no_delay() {
    let mut state = recording();
    let a = press_at(2_000, Key::KeyA);
    let b = press_at(1_999, Key::KeyB);
    state.update(global(GlobalEventTrigger::Event(a.clone())), at(7));
    let effects = state.update(global(GlobalEventTrigger::Event(b.clone())), at(8));
    assert_eq!(effects, Vec::<Effect>::new());
    assert_eq!(state.events(), vec![a, b]);
}

#[test]
fn recording_takes_focus_changes_too() {
    let mut state = recording();
    let a = press_at(10, Key::KeyA);
    let f = Event::new(at(30), EventKind::FocusChange { window_title: "Notepad".to_string() });
    state.update(global(GlobalEventTrigger::Event(a.clone())), at(7));
    state.update(global(GlobalEventTrigger::Event(f.clone())), at(8));
    assert_eq!(
        state.events(),
        vec![a, Event::new(at(8), EventKind::Delay(Duration { nanos: 20 })), f]
    );
}

#[test]
fn events_outside_recording_and_playing_are_dropped() {
    let mut state = state_with(vec![]);
    let effects = state.update(global(GlobalEventTrigger::Event(press_at(1, Key::KeyA))), at(2));
    assert_eq!(effects, Vec::<Effect>::new());
    assert_eq!(state.events(), Vec::<Event>::new());
    let mut state = state_with(vec![]);
    state.handle_command(Command::StartRecording, at(1));
    state.update(global(GlobalEventTrigger::Event(press_at(1, Key::KeyA))), at(2));
    assert_eq!(state.events(), Vec::<Event>::new());
}

#[test]
fn inputs_during_playback_go_to_the_player_as_missed() {
    let mut state = playing(vec![press(Key::KeyA)]);
    let effects = state.update(global(GlobalEventTrigger::Event(press_at(44, Key::KeyX))), at(50));
    assert_eq!(
        effects,
        vec![Effect::ToPlayer(player::Command::StoreMissedEvent(MissedEvent {
            event: InputEvent::KeyPress(Key::KeyX),
            time: at(44),
        }))]
    );
    match &effects[0] {
        Effect::ToPlayer(player::Command::StoreMissedEvent(missed)) => {
            assert_eq!(missed.event, InputEvent::KeyPress(Key::KeyX));
        }
        _ => unreachable!(),
    }
    assert_eq!(state.events(), vec![press(Key::KeyA)]);
    let focus = Event::new(at(45), EventKind::FocusChange { window_title: "N".to_string() });
    let effects = state.update(global(GlobalEventTrigger::Event(focus)), at(50));
    assert_eq!(effects, Vec::<Effect>::new());
}

#[test]
fn click_selects_one_item() {
    let mut state = state_with(vec![press(Key::KeyA), delay(5), release(Key::KeyA)]);
    state.handle_command(list(2), at(1));
    state.handle_command(list(1), at(1));
    assert_eq!(state.selected_items_state.iter(), vec![1]);
}

#[test]
fn control_click_adds_to_the_selection() {
    let mut state = state_with(vec![press(Key::KeyA), delay(5), release(Key::KeyA)]);
    state.handle_command(list(2), at(1));
    state.handle_command(Command::UpdateModifiers(Modifiers { control: true, shift: false }), at(1));
    state.handle_command(list(0), at(1));
    assert_eq!(state.selected_items_state.iter(), vec![0, 2]);
}

#[test]
fn shift_click_expands_from_the_first_selected() {
    let mut state =
        state_with(vec![press(Key::KeyA), delay(5), release(Key::KeyA), delay(6), press(Key::KeyB)]);
    state.handle_command(list(1), at(1));
    state.handle_command(Command::UpdateModifiers(Modifiers { control: false, shift: true }), at(1));
    state.handle_command(list(3), at(1));
    assert_eq!(state.selected_items_state.iter(), vec![1, 2, 3]);
    state.handle_command(list(0), at(1));
    assert_eq!(state.selected_items_state.iter(), vec![0, 1]);
}

#[test]
fn control_wins_over_shift() {
    let mut state = state_with(vec![press(Key::KeyA), delay(5), release(Key::KeyA)]);
    state.handle_command(list(0), at(1));
    state.handle_command(Command::UpdateModifiers(Modifiers { control: true, shift: true }), at(1));
    state.handle_command(list(2), at(1));
    assert_eq!(state.selected_items_state.iter(), vec![0, 2]);
}

#[test]
fn arrows_move_the_selection_by_one_clamped() {
    let mut state = state_with(vec![press(Key::KeyA), delay(5), release(Key::KeyA)]);
    state.handle_command(list(1), at(1));
    let next = Command::ItemList(ListCommand::SelectNext);
    let previous = Command::ItemList(ListCommand::SelectPrevious);
    assert_eq!(state.handle_command(next, at(1)), vec![Effect::ScrollToSelected]);
    assert_eq!(state.selected_items_state.iter(), vec![2]);
    assert_eq!(state.handle_command(next, at(1)), vec![Effect::ScrollToSelected]);
    assert_eq!(state.selected_items_state.iter(), vec![2]);
    assert_eq!(state.handle_command(previous, at(1)), vec![Effect::ScrollToSelected]);
    assert_eq!(state.selected_items_state.iter(), vec![1]);
    state.handle_command(previous, at(1));
    assert_eq!(state.handle_command(previous, at(1)), vec![Effect::ScrollToSelected]);
    assert_eq!(state.selected_items_state.iter(), vec![0]);
}

#[test]
fn arrows_start_from_the_ends_of_a_wide_selection() {
    let mut state =
        state_with(vec![press(Key::KeyA), delay(5), release(Key::KeyA), delay(6), press(Key::KeyB)]);
    state.handle_command(list(1), at(1));
    state.handle_command(Command::UpdateModifiers(Modifiers { control: true, shift: false }), at(1));
    state.handle_command(list(2), at(1));
    state.handle_command(Command::ItemList(ListCommand::SelectNext), at(1));
    assert_eq!(state.selected_items_state.iter(), vec![3]);
    state.handle_command(list(1), at(1));
    state.handle_command(Command::ItemList(ListCommand::SelectPrevious), at(1));
    assert_eq!(state.selected_items_state.iter(), vec![0]);
}

#[test]
fn arrows_without_selection_do_nothing() {
    let mut state = state_with(vec![press(Key::KeyA)]);
    let next = Command::ItemList(ListCommand::SelectNext);
    let previous = Command::ItemList(ListCommand::SelectPrevious);
    assert_eq!(state.handle_command(next, at(1)), Vec::<Effect>::new());
    assert_eq!(state.handle_command(previous, at(1)), Vec::<Effect>::new());
    assert_eq!(state.selected_items_state.iter(), Vec::<usize>::new());
}

#[test]
fn arrow_down_on_an_empty_list_does_nothing() {
    let mut state = state_with(vec![]);
    state.handle_command(list(3), at(1));
    let next = Command::ItemList(ListCommand::SelectNext);
    assert_eq!(state.handle_command(next, at(1)), Vec::<Effect>::new());
    assert_eq!(state.selected_items_state.iter(), vec![3]);
}

#[test]
fn delete_middle() {
    let mut state = state_with(vec![press(Key::KeyA), delay(5), release(Key::KeyA)]);
    state.handle_command(list(1), at(1));
    let effects = state.handle_command(Command::ItemList(ListCommand::DeleteItem), at(2));
    assert_eq!(effects, vec![Effect::Dispatch(Command::Stop)]);
    assert_eq!(state.events(), vec![press(Key::KeyA), release(Key::KeyA)]);
    assert_eq!(state.selected_items_state.iter(), vec![1]);
}

#[test]
fn delete_first_keeps_the_first_place_selected() {
    let mut state = state_with(vec![press(Key::KeyA), delay(5), release(Key::KeyA)]);
    state.handle_command(list(0), at(1));
    state.handle_command(Command::ItemList(ListCommand::DeleteItem), at(2));
    assert_eq!(state.events(), vec![delay(5), release(Key::KeyA)]);
    assert_eq!(state.selected_items_state.iter(), vec![0]);
}

#[test]
fn delete_several_in_one_pass() {
    let mut state = state_with(vec![
        press(Key::KeyA),
        delay(1),
        release(Key::KeyA),
        delay(2),
        press(Key::KeyB),
        delay(3),
    ]);
    state.handle_command(list(1), at(1));
    state.handle_command(Command::UpdateModifiers(Modifiers { control: true, shift: false }), at(1));
    state.handle_command(list(3), at(1));
    state.handle_command(list(5), at(1));
    state.handle_command(Command::ItemList(ListCommand::DeleteItem), at(2));
    assert_eq!(state.events(), vec![press(Key::KeyA), release(Key::KeyA), press(Key::KeyB)]);
    assert_eq!(state.selected_items_state.iter(), vec![1]);
}

#[test]
fn delete_the_tail_clamps_the_selection() {
    let mut state = state_with(vec![press(Key::KeyA), delay(5), release(Key::KeyA)]);
    state.handle_command(list(2), at(1));
    state.handle_command(Command::ItemList(ListCommand::DeleteItem), at(2));
    assert_eq!(state.events(), vec![press(Key::KeyA), delay(5)]);
    assert_eq!(state.selected_items_state.iter(), vec![1]);
}

#[test]
fn delete_everything_empties_the_selection() {
    let mut state = state_with(vec![press(Key::KeyA), release(Key::KeyA)]);
    state.handle_command(list(0), at(1));
    state.handle_command(Command::UpdateModifiers(Modifiers { control: false, shift: true }), at(1));
    state.handle_command(list(1), at(1));
    let effects = state.handle_command(Command::ItemList(ListCommand::DeleteItem), at(2));
    assert_eq!(effects, vec![Effect::Dispatch(Command::Stop)]);
    assert_eq!(state.events(), Vec::<Event>::new());
    assert_eq!(state.selected_items_state.iter(), Vec::<usize>::new());
}

#[test]
fn delete_without_selection_does_nothing() {
    let mut state = state_with(vec![press(Key::KeyA)]);
    let effects = state.handle_command(Command::ItemList(ListCommand::DeleteItem), at(2));
    assert_eq!(effects, Vec::<Effect>::new());
    assert_eq!(state.events(), vec![press(Key::KeyA)]);
}

#[test]
fn delete_skips_selected_places_beyond_the_list() {
    let mut state = state_with(vec![press(Key::KeyA), release(Key::KeyA)]);
    state.handle_command(list(1), at(1));
    state.handle_command(Command::UpdateModifiers(Modifiers { control: true, shift: false }), at(1));
    state.handle_command(list(7), at(1));
    state.handle_command(Command::ItemList(ListCommand::DeleteItem), at(2));
    assert_eq!(state.events(), vec![press(Key::KeyA)]);
    assert_eq!(state.selected_items_state.iter(), vec![0]);
}

#[test]
fn add_yield_with_no_selection() {
    let mut state = state_with(vec![press(Key::KeyA), delay(5), release(Key::KeyA)]);
    let effects = state.handle_command(Command::AddYieldEventAfterSelected, at(99));
    assert_eq!(effects, Vec::<Effect>::new());
    let events = state.events();
    assert_eq!(events.len(), 4);
    assert_eq!(events[3], Event::new(at(99), EventKind::YieldFocus));
    assert_eq!(events[..3].to_vec(), vec![press(Key::KeyA), delay(5), release(Key::KeyA)]);
}

#[test]
fn add_yield_after_the_last_selected() {
    let mut state = state_with(vec![press(Key::KeyA), delay(5), release(Key::KeyA)]);
    state.handle_command(list(0), at(1));
    state.handle_command(Command::UpdateModifiers(Modifiers { control: true, shift: false }), at(1));
    state.handle_command(list(1), at(1));
    state.handle_command(Command::AddYieldEventAfterSelected, at(99));
    assert_eq!(
        state.events(),
        vec![
            press(Key::KeyA),
            delay(5),
            Event::new(at(99), EventKind::YieldFocus),
            release(Key::KeyA)
        ]
    );
    assert_eq!(state.selected_items_state.iter(), vec![0, 1]);
}

#[test]
fn add_yield_after_a_selection_beyond_the_list_appends() {
    let mut state = state_with(vec![press(Key::KeyA)]);
    state.handle_command(list(5), at(1));
    state.handle_command(Command::AddYieldEventAfterSelected, at(99));
    assert_eq!(state.events(), vec![press(Key::KeyA), Event::new(at(99), EventKind::YieldFocus)]);
}

#[test]
fn sinks_become_known() {
    let mut state = state_with(vec![]);
    state.update(global(GlobalEventTrigger::PlayerReady), at(0));
    assert!(state.player_connected);
    assert!(!state.listener_connected);
    state.update(global(GlobalEventTrigger::ListenerReady), at(0));
    assert!(state.listener_connected);
}
