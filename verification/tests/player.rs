use powerkey::event::{Event, EventKind, Input, InputEvent};
use powerkey::key::Key;
use powerkey::listener;
use powerkey::missed::MissedEvent;
use powerkey::player::{
    Action, Command, Message, Player, PlayerState, Playing, PlayingState, YieldContext,
};
use powerkey::missed::MissedEvents;
use powerkey::time::{Duration, Timestamp};

fn at(nanos: u128) -> Timestamp {
    Timestamp::from_nanos(nanos)
}

fn press(key: Key) -> InputEvent {
    InputEvent::KeyPress(key)
}

fn release(key: Key) -> InputEvent {
    InputEvent::KeyRelease(key)
}

fn input(input: InputEvent) -> Event {
    Event::new(at(0), EventKind::Input(Input(input)))
}

fn delay(millis: u64) -> Event {
    Event::new(at(0), EventKind::Delay(Duration::from_millis(millis)))
}

fn focus(title: &str) -> Event {
    Event::new(at(0), EventKind::FocusChange { window_title: title.to_string() })
}

fn yield_focus() -> Event {
    Event::new(at(0), EventKind::YieldFocus)
}

fn played(index: usize) -> Action {
    Action::Emit(Message::JustPlayed { index })
}

fn simulated(actions: &[Action]) -> Vec<InputEvent> {
    let mut inputs = Vec::new();
    for action in actions {
        if let Action::Simulate(input) = action {
            inputs.push(*input);
        }
    }
    inputs
}

fn running(events: Vec<Event>) -> Player {
    let mut player = Player::new();
    assert!(player.initialize_playback(events).is_some());
    assert_eq!(player.notify_grab_ready(), Some(Message::PlaybackJustStarted));
    player
}

fn playing(player: &Player) -> &Playing {
    match &player.state {
        PlayerState::Playing(playing) => playing,
        PlayerState::Idle => panic!("the player is idle"),
    }
}

#[test]
fn a_new_player_is_idle() {
    let player = Player::new();
    assert!(!player.is_playing());
    assert!(matches!(player.state, PlayerState::Idle));
}

#[test]
fn initialize_asks_for_grab_with_the_inputs_before_the_first_yield() {
    let mut player = Player::new();
    let command = player.initialize_playback(vec![
        focus("Notepad"),
        input(press(Key::KeyA)),
        delay(5),
        input(release(Key::KeyA)),
        yield_focus(),
        input(press(Key::KeyB)),
    ]);
    assert_eq!(
        command,
        Some(listener::Command::ChangeMode(listener::Mode::grab(vec![
            press(Key::KeyA),
            release(Key::KeyA)
        ])))
    );
    assert!(player.is_playing());
    assert_eq!(playing(&player).state, PlayingState::WaitingForGrabMode);
    assert_eq!(playing(&player).event_index, 0);
    assert_eq!(playing(&player).yield_context, None);
    assert_eq!(player.missed_events().len(), 0);
}

#[test]
fn initialize_without_yield_takes_every_input() {
    let mut player = Player::new();
    let command = player.initialize_playback(vec![
        input(press(Key::KeyA)),
        input(release(Key::KeyA)),
        input(press(Key::KeyB)),
    ]);
    assert_eq!(
        command,
        Some(listener::Command::ChangeMode(listener::Mode::grab(vec![
            press(Key::KeyA),
            release(Key::KeyA),
            press(Key::KeyB)
        ])))
    );
}

#[test]
fn initialize_of_an_empty_macro() {
    let mut player = Player::new();
    let command = player.initialize_playback(vec![]);
    assert_eq!(command, Some(listener::Command::ChangeMode(listener::Mode::grab(vec![]))));
}

#[test]
fn initialize_while_playing_is_refused() {
    let mut player = running(vec![input(press(Key::KeyA))]);
    assert_eq!(player.initialize_playback(vec![input(press(Key::KeyB))]), None);
    assert_eq!(playing(&player).events, vec![input(press(Key::KeyA))]);
    assert_eq!(playing(&player).state, PlayingState::Running);
}

#[test]
fn build_simulated_events_starts_at_the_current_event() {
    let playing = Playing {
        event_index: 2,
        events: vec![
            input(press(Key::KeyA)),
            yield_focus(),
            input(press(Key::KeyB)),
            focus("X"),
            input(release(Key::KeyB)),
            yield_focus(),
            input(press(Key::KeyC)),
        ],
        state: PlayingState::Running,
        missed_events: MissedEvents::new(),
        yield_context: None,
    };
    assert_eq!(
        playing.build_simulated_event_for_grab_mode(),
        vec![press(Key::KeyB), release(Key::KeyB)]
    );
}

#[test]
fn build_simulated_events_at_a_yield_or_past_the_end_is_empty() {
    let mut playing = Playing {
        event_index: 1,
        events: vec![input(press(Key::KeyA)), yield_focus(), input(press(Key::KeyB))],
        state: PlayingState::Running,
        missed_events: MissedEvents::new(),
        yield_context: None,
    };
    assert_eq!(playing.build_simulated_event_for_grab_mode(), Vec::<InputEvent>::new());
    playing.event_index = 3;
    assert_eq!(playing.build_simulated_event_for_grab_mode(), Vec::<InputEvent>::new());
    playing.event_index = 9;
    assert_eq!(playing.build_simulated_event_for_grab_mode(), Vec::<InputEvent>::new());
}

#[test]
fn grab_ready_outside_waiting_is_ignored() {
    let mut player = Player::new();
    assert_eq!(player.notify_grab_ready(), None);
    assert!(!player.is_playing());
    let mut player = running(vec![]);
    assert_eq!(player.notify_grab_ready(), None);
    assert_eq!(playing(&player).state, PlayingState::Running);
}

#[test]
fn no_tick_before_grab_is_confirmed() {
    let mut player = Player::new();
    player.initialize_playback(vec![input(press(Key::KeyA))]);
    assert_eq!(player.perform_playback(at(1), None), Vec::<Action>::new());
    assert_eq!(playing(&player).event_index, 0);
    assert_eq!(playing(&player).state, PlayingState::WaitingForGrabMode);
}

#[test]
fn an_idle_player_does_nothing_on_a_tick() {
    let mut player = Player::new();
    assert_eq!(player.perform_playback(at(1), Some("x".to_string())), Vec::<Action>::new());
    assert!(!player.is_playing());
}

#[test]
fn record_then_play_without_focus_change() {
    let events = vec![
        input(press(Key::KeyA)),
        delay(50),
        input(release(Key::KeyA)),
        delay(50),
        input(press(Key::KeyB)),
        delay(50),
        input(release(Key::KeyB)),
    ];
    let mut player = Player::new();
    let to_listener = player.initialize_playback(events).unwrap();
    let expected =
        vec![press(Key::KeyA), release(Key::KeyA), press(Key::KeyB), release(Key::KeyB)];
    assert_eq!(
        to_listener,
        listener::Command::ChangeMode(listener::Mode::grab(expected.clone()))
    );
    let mut listener = listener::State::new();
    listener.handle_command(to_listener);
    assert_eq!(player.notify_grab_ready(), Some(Message::PlaybackJustStarted));

    let mut all = Vec::new();
    let mut tick = 0;
    while player.is_playing() {
        tick += 1;
        assert!(tick < 100);
        for action in player.perform_playback(at(tick), None) {
            if let Action::Simulate(input) = &action {
                let echo = listener::RawEvent {
                    time: at(tick),
                    kind: listener::RawEventKind::Key(*input),
                };
                let outcome = listener.on_key_event(echo);
                assert!(outcome.pass_through);
                assert_eq!(outcome.message, None);
            }
            all.push(action);
        }
    }
    assert_eq!(
        all,
        vec![
            Action::Simulate(press(Key::KeyA)),
            Action::Sleep(Duration::from_millis(16)),
            played(0),
            Action::Sleep(Duration::from_millis(50)),
            played(1),
            Action::Simulate(release(Key::KeyA)),
            Action::Sleep(Duration::from_millis(16)),
            played(2),
            Action::Sleep(Duration::from_millis(50)),
            played(3),
            Action::Simulate(press(Key::KeyB)),
            Action::Sleep(Duration::from_millis(16)),
            played(4),
            Action::Sleep(Duration::from_millis(50)),
            played(5),
            Action::Simulate(release(Key::KeyB)),
            Action::Sleep(Duration::from_millis(16)),
            played(6),
            Action::Emit(Message::PlaybackDone),
        ]
    );
    assert_eq!(simulated(&all), expected);
    assert_eq!(listener.mode.ignore_list(), Vec::<InputEvent>::new());
    assert_eq!(tick, 8);
}

#[test]
fn focus_change_remembers_the_window_in_front() {
    let mut player = running(vec![focus("Notepad")]);
    let actions = player.perform_playback(at(40), Some("Editor".to_string()));
    assert_eq!(actions, vec![Action::SetForegroundWindow("Notepad".to_string()), played(0)]);
    assert_eq!(
        playing(&player).yield_context,
        Some(YieldContext { start_time: at(40), previous_window_title: "Editor".to_string() })
    );
    assert_eq!(playing(&player).event_index, 1);
}

#[test]
fn focus_change_without_a_known_window_keeps_the_context() {
    let mut player = running(vec![focus("Notepad"), focus("Other")]);
    player.perform_playback(at(40), Some("Editor".to_string()));
    let actions = player.perform_playback(at(50), None);
    assert_eq!(actions, vec![Action::SetForegroundWindow("Other".to_string()), played(1)]);
    assert_eq!(
        playing(&player).yield_context,
        Some(YieldContext { start_time: at(40), previous_window_title: "Editor".to_string() })
    );
}

#[test]
fn yield_without_context_is_skipped() {
    let mut player = running(vec![yield_focus(), input(press(Key::KeyA))]);
    let actions = player.perform_playback(at(10), Some("Editor".to_string()));
    assert_eq!(actions, vec![played(0)]);
    assert_eq!(playing(&player).state, PlayingState::Running);
    assert_eq!(playing(&player).event_index, 1);
}

#[test]
fn yield_protocol() {
    let mut player = Player::new();
    let to_listener = player
        .initialize_playback(vec![
            focus("Notepad"),
            input(press(Key::KeyA)),
            input(release(Key::KeyA)),
            yield_focus(),
        ])
        .unwrap();
    assert_eq!(
        to_listener,
        listener::Command::ChangeMode(listener::Mode::grab(vec![
            press(Key::KeyA),
            release(Key::KeyA)
        ]))
    );
    player.notify_grab_ready();

    let actions = player.perform_playback(at(100), Some("Editor".to_string()));
    assert_eq!(actions, vec![Action::SetForegroundWindow("Notepad".to_string()), played(0)]);
    assert_eq!(
        playing(&player).yield_context,
        Some(YieldContext { start_time: at(100), previous_window_title: "Editor".to_string() })
    );

    assert_eq!(simulated(&player.perform_playback(at(110), None)), vec![press(Key::KeyA)]);
    player.store_missed_event(MissedEvent { event: press(Key::KeyX), time: at(115) });
    assert_eq!(simulated(&player.perform_playback(at(120), None)), vec![release(Key::KeyA)]);
    player.store_missed_event(MissedEvent { event: release(Key::KeyX), time: at(125) });

    let actions = player.perform_playback(at(130), None);
    assert_eq!(
        actions,
        vec![
            Action::SendToListener(listener::Command::SetNextEventsToBeIgnoredByGrab(vec![
                press(Key::KeyX),
                release(Key::KeyX)
            ])),
            played(3),
        ]
    );
    assert_eq!(
        playing(&player).state,
        PlayingState::WaitingForMissedEventsAddedToGrabber { yield_end_time: at(130) }
    );
    assert_eq!(playing(&player).event_index, 3);
    assert_eq!(player.perform_playback(at(131), None), Vec::<Action>::new());

    let actions = player.notify_missed_events_added_to_grabber();
    assert_eq!(
        actions,
        vec![
            Action::SetForegroundWindow("Editor".to_string()),
            Action::Simulate(press(Key::KeyX)),
            Action::Sleep(Duration::from_millis(20)),
            Action::Simulate(release(Key::KeyX)),
            Action::Sleep(Duration::from_millis(20)),
        ]
    );
    assert_eq!(playing(&player).state, PlayingState::Running);
    assert_eq!(playing(&player).yield_context, None);
    assert_eq!(playing(&player).event_index, 4);
    assert_eq!(player.missed_events().len(), 0);

    let actions = player.perform_playback(at(140), None);
    assert_eq!(actions, vec![Action::Emit(Message::PlaybackDone)]);
    assert!(!player.is_playing());
}

#[test]
fn missed_events_outside_the_yield_window_are_not_replayed() {
    let mut player = running(vec![input(press(Key::KeyQ)), focus("Notepad"), yield_focus()]);
    player.store_missed_event(MissedEvent { event: press(Key::KeyA), time: at(50) });
    player.perform_playback(at(60), None);
    player.perform_playback(at(100), Some("Editor".to_string()));
    player.store_missed_event(MissedEvent { event: press(Key::KeyB), time: at(100) });
    player.store_missed_event(MissedEvent { event: press(Key::KeyC), time: at(150) });
    player.store_missed_event(MissedEvent { event: press(Key::KeyD), time: at(200) });
    player.store_missed_event(MissedEvent { event: press(Key::KeyE), time: at(250) });

    let actions = player.perform_playback(at(200), None);
    assert_eq!(
        actions[0],
        Action::SendToListener(listener::Command::SetNextEventsToBeIgnoredByGrab(vec![
            press(Key::KeyB),
            press(Key::KeyC)
        ]))
    );
    let actions = player.notify_missed_events_added_to_grabber();
    assert_eq!(simulated(&actions), vec![press(Key::KeyB), press(Key::KeyC)]);
    let left = player.missed_events();
    assert_eq!(left.len(), 1);
    assert_eq!(left[0].event, press(Key::KeyE));
    assert_eq!(left[0].time, at(250));
}

#[test]
fn missed_events_are_replayed_in_order_of_time() {
    let mut player = running(vec![focus("Notepad"), yield_focus()]);
    player.perform_playback(at(10), Some("Editor".to_string()));
    player.store_missed_event(MissedEvent { event: press(Key::KeyC), time: at(30) });
    player.store_missed_event(MissedEvent { event: press(Key::KeyA), time: at(11) });
    player.store_missed_event(MissedEvent { event: press(Key::KeyB), time: at(20) });
    player.store_missed_event(MissedEvent { event: press(Key::KeyZ), time: at(20) });
    let stored: Vec<u128> = player.missed_events().iter().map(|m| m.time.nanos).collect();
    assert_eq!(stored, vec![11, 20, 30]);
    player.perform_playback(at(40), None);
    let actions = player.notify_missed_events_added_to_grabber();
    assert_eq!(
        simulated(&actions),
        vec![press(Key::KeyA), press(Key::KeyB), press(Key::KeyC)]
    );
}

#[test]
fn missed_events_are_stored_only_while_running() {
    let mut player = Player::new();
    player.store_missed_event(MissedEvent { event: press(Key::KeyA), time: at(1) });
    assert!(!player.is_playing());
    player.initialize_playback(vec![focus("Notepad"), yield_focus()]);
    player.store_missed_event(MissedEvent { event: press(Key::KeyA), time: at(2) });
    assert_eq!(player.missed_events().len(), 0);
    player.notify_grab_ready();
    player.perform_playback(at(10), Some("Editor".to_string()));
    player.perform_playback(at(20), None);
    player.store_missed_event(MissedEvent { event: press(Key::KeyA), time: at(15) });
    assert_eq!(player.missed_events().len(), 0);
}

#[test]
fn missed_ack_outside_waiting_is_ignored() {
    let mut player = Player::new();
    assert_eq!(player.notify_missed_events_added_to_grabber(), Vec::<Action>::new());
    assert!(!player.is_playing());
    let mut player = running(vec![input(press(Key::KeyA))]);
    assert_eq!(player.notify_missed_events_added_to_grabber(), Vec::<Action>::new());
    assert_eq!(playing(&player).state, PlayingState::Running);
    assert_eq!(playing(&player).event_index, 0);
}

#[test]
fn stop_during_playback() {
    let mut player = running(vec![input(press(Key::KeyA)), input(press(Key::KeyB))]);
    player.perform_playback(at(1), None);
    let actions = player.handle_command(Command::StopPlayback);
    assert_eq!(actions, vec![Action::Emit(Message::PlaybackDone)]);
    assert!(!player.is_playing());
    assert_eq!(player.perform_playback(at(2), None), Vec::<Action>::new());
}

#[test]
fn stop_while_idle_still_reports_done() {
    let mut player = Player::new();
    let actions = player.handle_command(Command::StopPlayback);
    assert_eq!(actions, vec![Action::Emit(Message::PlaybackDone)]);
    assert!(!player.is_playing());
}

#[test]
fn handle_command_routes_each_command() {
    let mut player = Player::new();
    let actions =
        player.handle_command(Command::InitializePlayback(vec![input(press(Key::KeyA))]));
    assert_eq!(
        actions,
        vec![Action::SendToListener(listener::Command::ChangeMode(listener::Mode::grab(vec![
            press(Key::KeyA)
        ])))]
    );
    assert_eq!(
        player.handle_command(Command::NotifyGrabReady),
        vec![Action::Emit(Message::PlaybackJustStarted)]
    );
    assert_eq!(player.handle_command(Command::NotifyGrabReady), Vec::<Action>::new());
    let stored = player.handle_command(Command::StoreMissedEvent(MissedEvent {
        event: press(Key::KeyX),
        time: at(5),
    }));
    assert_eq!(stored, Vec::<Action>::new());
    assert_eq!(player.missed_events().len(), 1);
    assert_eq!(
        player.handle_command(Command::NotifyMissedEventsAddedToGrabber),
        Vec::<Action>::new()
    );
}

#[test]
fn step_takes_the_command_and_then_ticks() {
    let mut player = Player::new();
    player.initialize_playback(vec![input(press(Key::KeyA))]);
    let actions = player.step(Some(Command::NotifyGrabReady), at(1), None);
    assert_eq!(
        actions,
        vec![
            Action::Emit(Message::PlaybackJustStarted),
            Action::Simulate(press(Key::KeyA)),
            Action::Sleep(Duration::from_millis(16)),
            played(0),
        ]
    );
    let actions = player.step(None, at(2), None);
    assert_eq!(actions, vec![Action::Emit(Message::PlaybackDone)]);
    let actions = player.step(None, at(3), None);
    assert_eq!(actions, Vec::<Action>::new());
}
