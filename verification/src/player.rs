//! The player: the state machine that plays a macro back, event by event,
//! and returns to the user what was typed while it had given the focus away.

use crate::event::{Event, EventKind, Input, InputEvent};
use crate::listener;
use crate::listener::{CommandView, ModeView};
use crate::missed::{
    inputs_of_missed, later_than, window, with_missed, MissedEvent, MissedEvents,
};
use crate::selection::index_after;
use crate::time::{Duration, Timestamp, NANOS_PER_MILLI};
use vstd::prelude::*;

verus! {

/// The pause after each input that the player plays, in milliseconds.
pub const POST_SIMULATE_MILLIS: u64 = 16;

/// The pause after each missed input that the player plays back at the end
/// of a yield, in milliseconds.
pub const POST_REPLAY_MILLIS: u64 = 20;

/// What the player reports.
#[derive(Clone, Copy, Debug, PartialEq, Eq, Structural)]
pub enum Message {
    PlaybackJustStarted,
    JustPlayed { index: usize },
    PlaybackDone,
}

/// What the player can be asked to do.
#[derive(Debug, PartialEq)]
pub enum Command {
    InitializePlayback(Vec<Event>),
    NotifyGrabReady,
    StoreMissedEvent(MissedEvent),
    NotifyMissedEventsAddedToGrabber,
    StopPlayback,
}

/// A command as a mathematical value.
pub enum CommandModel {
    InitializePlayback(Seq<Event>),
    NotifyGrabReady,
    StoreMissedEvent(MissedEvent),
    NotifyMissedEventsAddedToGrabber,
    StopPlayback,
}

impl View for Command {
    type V = CommandModel;

    open spec fn view(&self) -> CommandModel {
        match self {
            Command::InitializePlayback(events) => CommandModel::InitializePlayback(events@),
            Command::NotifyGrabReady => CommandModel::NotifyGrabReady,
            Command::StoreMissedEvent(missed) => CommandModel::StoreMissedEvent(*missed),
            Command::NotifyMissedEventsAddedToGrabber => {
                CommandModel::NotifyMissedEventsAddedToGrabber
            },
            Command::StopPlayback => CommandModel::StopPlayback,
        }
    }
}

/// Where a playback stands.
#[derive(Clone, Copy, Debug, PartialEq, Eq, Structural)]
pub enum PlayingState {
    /// The listener was asked to grab and has not confirmed.
    WaitingForGrabMode,
    /// Events are being played.
    Running,
    /// The missed inputs of a yield were handed to the listener, which has
    /// not confirmed.
    WaitingForMissedEventsAddedToGrabber { yield_end_time: Timestamp },
}

/// What is remembered of the moment the player gave the focus away: when it
/// did, and which window was in front before.
#[derive(Debug, PartialEq, Eq)]
pub struct YieldContext {
    pub start_time: Timestamp,
    pub previous_window_title: String,
}

/// A playback under way.
#[derive(Debug)]
pub struct Playing {
    pub event_index: usize,
    pub events: Vec<Event>,
    pub state: PlayingState,
    pub missed_events: MissedEvents,
    pub yield_context: Option<YieldContext>,
}

#[derive(Debug)]
pub enum PlayerState {
    Playing(Playing),
    Idle,
}

/// The player.
#[derive(Debug)]
pub struct Player {
    pub state: PlayerState,
}

/// What the player wants done, by whoever drives it.
#[derive(Debug, PartialEq)]
pub enum Action {
    /// Synthesize this input.
    Simulate(InputEvent),
    /// Wait this long.
    Sleep(Duration),
    /// Bring the window with this title to the foreground.
    SetForegroundWindow(String),
    /// Send this command to the listener.
    SendToListener(listener::Command),
    /// Report this.
    Emit(Message),
}

/// An action as a mathematical value.
pub enum ActionView {
    Simulate(InputEvent),
    Sleep(Duration),
    SetForegroundWindow(String),
    SendToListener(CommandView),
    Emit(Message),
}

impl View for Action {
    type V = ActionView;

    open spec fn view(&self) -> ActionView {
        match self {
            Action::Simulate(input) => ActionView::Simulate(*input),
            Action::Sleep(duration) => ActionView::Sleep(*duration),
            Action::SetForegroundWindow(title) => ActionView::SetForegroundWindow(*title),
            Action::SendToListener(command) => ActionView::SendToListener(command@),
            Action::Emit(message) => ActionView::Emit(*message),
        }
    }
}

/// The views of a list of actions.
pub open spec fn action_views(actions: Seq<Action>) -> Seq<ActionView> {
    actions.map_values(|a: Action| a@)
}

/// A playback under way, as a mathematical value.
pub struct PlayingModel {
    pub event_index: usize,
    pub events: Seq<Event>,
    pub state: PlayingState,
    pub missed: Seq<MissedEvent>,
    pub yield_context: Option<YieldContext>,
}

/// The player as a mathematical value.
pub enum PlayerModel {
    Playing(PlayingModel),
    Idle,
}

impl View for Playing {
    type V = PlayingModel;

    open spec fn view(&self) -> PlayingModel {
        PlayingModel {
            event_index: self.event_index,
            events: self.events@,
            state: self.state,
            missed: self.missed_events@,
            yield_context: self.yield_context,
        }
    }
}

impl View for PlayerState {
    type V = PlayerModel;

    open spec fn view(&self) -> PlayerModel {
        match self {
            PlayerState::Playing(playing) => PlayerModel::Playing(playing@),
            PlayerState::Idle => PlayerModel::Idle,
        }
    }
}

impl View for Player {
    type V = PlayerModel;

    open spec fn view(&self) -> PlayerModel {
        self.state@
    }
}

/// The state that a transition leads to, and what it asks to be done, in
/// order.
pub struct Step {
    pub next: PlayerModel,
    pub actions: Seq<ActionView>,
}

/// The pause after an input that was played.
pub open spec fn post_simulate_pause() -> Duration {
    Duration { nanos: (POST_SIMULATE_MILLIS * NANOS_PER_MILLI) as u128 }
}

/// The pause after a missed input that was played back.
pub open spec fn post_replay_pause() -> Duration {
    Duration { nanos: (POST_REPLAY_MILLIS * NANOS_PER_MILLI) as u128 }
}

/// The inputs among `events`, in order.
pub open spec fn inputs_of(events: Seq<Event>) -> Seq<InputEvent>
    decreases events.len(),
{
    if events.len() == 0 {
        Seq::empty()
    } else {
        let before = inputs_of(events.drop_last());
        match events.last().kind {
            EventKind::Input(Input(input)) => before.push(input),
            _ => before,
        }
    }
}

/// The place of the first `YieldFocus` at or after `from`; the length of
/// `events` where there is none.
pub open spec fn first_yield_from(events: Seq<Event>, from: int) -> int
    decreases events.len() - from,
{
    if from < 0 || from >= events.len() {
        events.len() as int
    } else if events[from].kind is YieldFocus {
        from
    } else {
        first_yield_from(events, from + 1)
    }
}

/// The inputs that the player will synthesize from `from` on before it next
/// yields: those of the events from `from` up to the first `YieldFocus`.
pub open spec fn inputs_until_yield(events: Seq<Event>, from: int) -> Seq<InputEvent> {
    if 0 <= from <= events.len() {
        inputs_of(events.subrange(from, first_yield_from(events, from)))
    } else {
        Seq::empty()
    }
}

/// `first_yield_from` is what its name says: it lies between `from` and the
/// end, no event from `from` up to it is a `YieldFocus`, and the event at
/// it is one unless it is the end.
pub proof fn lemma_first_yield_from(events: Seq<Event>, from: int)
    requires
        0 <= from <= events.len(),
    ensures
        from <= first_yield_from(events, from) <= events.len(),
        forall|k: int|
            from <= k < first_yield_from(events, from) ==> !((#[trigger] events[k]).kind
                is YieldFocus),
        first_yield_from(events, from) < events.len() ==> events[first_yield_from(
            events,
            from,
        )].kind is YieldFocus,
    decreases events.len() - from,
{
    if from < events.len() && !(events[from].kind is YieldFocus) {
        lemma_first_yield_from(events, from + 1);
    }
}

/// The inputs of a run of events with one more event put after it.
pub proof fn lemma_inputs_of_push(events: Seq<Event>, last: Event)
    ensures
        inputs_of(events.push(last)) == match last.kind {
            EventKind::Input(Input(input)) => inputs_of(events).push(input),
            _ => inputs_of(events),
        },
{
    assert(events.push(last).drop_last() =~= events);
}

/// The inputs of two runs of events put together are those of the first and
/// then those of the second.
pub proof fn lemma_inputs_of_concat(first: Seq<Event>, second: Seq<Event>)
    ensures
        inputs_of(first + second) == inputs_of(first) + inputs_of(second),
    decreases second.len(),
{
    if second.len() == 0 {
        assert(first + second =~= first);
        assert(inputs_of(first) + inputs_of(second) =~= inputs_of(first));
    } else {
        lemma_inputs_of_concat(first, second.drop_last());
        assert((first + second).drop_last() =~= first + second.drop_last());
        assert((first + second).last() == second.last());
        match second.last().kind {
            EventKind::Input(Input(input)) => {
                assert((inputs_of(first) + inputs_of(second.drop_last())).push(input)
                    =~= inputs_of(first) + inputs_of(second.drop_last()).push(input));
            },
            _ => {},
        }
    }
}

/// The actions that play back a run of missed inputs: each is synthesized
/// and followed by the pause after a replay.
pub open spec fn replay_actions(inputs: Seq<InputEvent>) -> Seq<ActionView>
    decreases inputs.len(),
{
    if inputs.len() == 0 {
        Seq::empty()
    } else {
        replay_actions(inputs.drop_last()).push(ActionView::Simulate(inputs.last())).push(
            ActionView::Sleep(post_replay_pause()),
        )
    }
}

/// `InitializePlayback`: an idle player takes the events and asks the
/// listener to grab, with the inputs that it will synthesize before the
/// first yield as the ignore-list. A player that is not idle does nothing.
pub open spec fn initialize(model: PlayerModel, events: Seq<Event>) -> Step {
    match model {
        PlayerModel::Idle => Step {
            next: PlayerModel::Playing(
                PlayingModel {
                    event_index: 0,
                    events,
                    state: PlayingState::WaitingForGrabMode,
                    missed: Seq::empty(),
                    yield_context: None,
                },
            ),
            actions: seq![
                ActionView::SendToListener(
                    CommandView::ChangeMode(
                        ModeView::Grab { ignore_list: inputs_until_yield(events, 0) },
                    ),
                ),
            ],
        },
        _ => Step { next: model, actions: Seq::empty() },
    }
}

/// `NotifyGrabReady`: a player that waits for grab mode starts to run and
/// says so. In any other state nothing happens.
pub open spec fn grab_ready(model: PlayerModel) -> Step {
    match model {
        PlayerModel::Playing(playing) if playing.state is WaitingForGrabMode => Step {
            next: PlayerModel::Playing(PlayingModel { state: PlayingState::Running, ..playing }),
            actions: seq![ActionView::Emit(Message::PlaybackJustStarted)],
        },
        _ => Step { next: model, actions: Seq::empty() },
    }
}

/// `StoreMissedEvent`: a running player takes the event into its set of
/// missed events. In any other state the event is dropped.
pub open spec fn store_missed(model: PlayerModel, missed: MissedEvent) -> Step {
    match model {
        PlayerModel::Playing(playing) if playing.state is Running => Step {
            next: PlayerModel::Playing(
                PlayingModel { missed: with_missed(playing.missed, missed), ..playing },
            ),
            actions: Seq::empty(),
        },
        _ => Step { next: model, actions: Seq::empty() },
    }
}

/// `StopPlayback`: the player becomes idle, and says that the playback is
/// done whether or not one was under way.
pub open spec fn stop(model: PlayerModel) -> Step {
    Step { next: PlayerModel::Idle, actions: seq![ActionView::Emit(Message::PlaybackDone)] }
}

/// `NotifyMissedEventsAddedToGrabber`: a player that waits for this, and
/// that has a yield context, brings the window back that was in front
/// before the yield, plays back the inputs missed during the yield in the
/// order in which they came, keeps only the missed events that came after
/// the yield's end, forgets the context, and runs on with the next event.
/// In any other state nothing happens.
pub open spec fn missed_ack(model: PlayerModel) -> Step {
    match model {
        PlayerModel::Playing(playing) => match (playing.state, playing.yield_context) {
            (
                PlayingState::WaitingForMissedEventsAddedToGrabber { yield_end_time },
                Some(context),
            ) => Step {
                next: PlayerModel::Playing(
                    PlayingModel {
                        event_index: index_after(playing.event_index),
                        events: playing.events,
                        state: PlayingState::Running,
                        missed: later_than(playing.missed, yield_end_time),
                        yield_context: None,
                    },
                ),
                actions: seq![ActionView::SetForegroundWindow(context.previous_window_title)]
                    + replay_actions(
                    inputs_of_missed(window(playing.missed, context.start_time, yield_end_time)),
                ),
            },
            _ => Step { next: model, actions: Seq::empty() },
        },
        _ => Step { next: model, actions: Seq::empty() },
    }
}

/// What playing one event does to a running playback that has not reached
/// its end. `now` is the time, and `focused` the title of the window in
/// front, where it could be had.
pub open spec fn play_event(playing: PlayingModel, now: Timestamp, focused: Option<String>) -> Step
    recommends
        playing.event_index < playing.events.len(),
{
    let index = playing.event_index;
    let played = ActionView::Emit(Message::JustPlayed { index });
    let advanced = PlayingModel { event_index: index_after(index), ..playing };
    match playing.events[index as int].kind {
        EventKind::Input(Input(input)) => Step {
            next: PlayerModel::Playing(advanced),
            actions: seq![
                ActionView::Simulate(input),
                ActionView::Sleep(post_simulate_pause()),
                played,
            ],
        },
        EventKind::FocusChange { window_title } => Step {
            next: PlayerModel::Playing(
                PlayingModel {
                    yield_context: match focused {
                        Some(previous_window_title) => Some(
                            YieldContext { start_time: now, previous_window_title },
                        ),
                        None => playing.yield_context,
                    },
                    ..advanced
                },
            ),
            actions: seq![ActionView::SetForegroundWindow(window_title), played],
        },
        EventKind::Delay(duration) => Step {
            next: PlayerModel::Playing(advanced),
            actions: seq![ActionView::Sleep(duration), played],
        },
        EventKind::YieldFocus => match playing.yield_context {
            Some(context) => Step {
                next: PlayerModel::Playing(
                    PlayingModel {
                        state: PlayingState::WaitingForMissedEventsAddedToGrabber {
                            yield_end_time: now,
                        },
                        ..playing
                    },
                ),
                actions: seq![
                    ActionView::SendToListener(
                        CommandView::SetNextEventsToBeIgnoredByGrab(
                            inputs_of_missed(window(playing.missed, context.start_time, now)),
                        ),
                    ),
                    played,
                ],
            },
            None => Step { next: PlayerModel::Playing(advanced), actions: seq![played] },
        },
    }
}

/// One tick of the player. A running playback plays its next event, or, at
/// the end of its events, becomes idle and says that it is done. A player
/// that is not running does nothing.
pub open spec fn tick(model: PlayerModel, now: Timestamp, focused: Option<String>) -> Step {
    match model {
        PlayerModel::Playing(playing) if playing.state is Running => {
            if playing.event_index >= playing.events.len() {
                Step {
                    next: PlayerModel::Idle,
                    actions: seq![ActionView::Emit(Message::PlaybackDone)],
                }
            } else {
                play_event(playing, now, focused)
            }
        },
        _ => Step { next: model, actions: Seq::empty() },
    }
}

/// What a command does to the player.
pub open spec fn after_command(model: PlayerModel, command: Command) -> Step {
    match command {
        Command::InitializePlayback(events) => initialize(model, events@),
        Command::NotifyGrabReady => grab_ready(model),
        Command::StoreMissedEvent(missed) => store_missed(model, missed),
        Command::NotifyMissedEventsAddedToGrabber => missed_ack(model),
        Command::StopPlayback => stop(model),
    }
}

/// One turn of the player: the command that has come, if one has, is
/// taken, and then a tick is made.
pub open spec fn turn(
    model: PlayerModel,
    command: Option<Command>,
    now: Timestamp,
    focused: Option<String>,
) -> Step {
    let first = match command {
        Some(command) => after_command(model, command),
        None => Step { next: model, actions: Seq::empty() },
    };
    let second = tick(first.next, now, focused);
    Step { next: second.next, actions: first.actions + second.actions }
}

/// What a tick is given from outside: the time, and the title of the
/// window in front where it could be had.
pub struct TickInput {
    pub now: Timestamp,
    pub focused: Option<String>,
}

/// A run of ticks with no command between them: the state that it ends in,
/// and all that it asks to be done, in order.
pub open spec fn run(model: PlayerModel, ticks: Seq<TickInput>) -> Step
    decreases ticks.len(),
{
    if ticks.len() == 0 {
        Step { next: model, actions: Seq::empty() }
    } else {
        let first = tick(model, ticks[0].now, ticks[0].focused);
        let rest = run(first.next, ticks.drop_first());
        Step { next: rest.next, actions: first.actions + rest.actions }
    }
}

/// The inputs that a run of actions synthesizes, in order.
pub open spec fn simulated(actions: Seq<ActionView>) -> Seq<InputEvent>
    decreases actions.len(),
{
    if actions.len() == 0 {
        Seq::empty()
    } else {
        let before = simulated(actions.drop_last());
        match actions.last() {
            ActionView::Simulate(input) => before.push(input),
            _ => before,
        }
    }
}

/// The missed events that the player holds; none when it is idle.
pub open spec fn missed_of(model: PlayerModel) -> Seq<MissedEvent> {
    match model {
        PlayerModel::Playing(playing) => playing.missed,
        PlayerModel::Idle => Seq::empty(),
    }
}

/// The inputs that two runs of actions synthesize are those of the first
/// and then those of the second.
pub proof fn lemma_simulated_concat(first: Seq<ActionView>, second: Seq<ActionView>)
    ensures
        simulated(first + second) == simulated(first) + simulated(second),
    decreases second.len(),
{
    if second.len() == 0 {
        assert(first + second =~= first);
        assert(simulated(first) + simulated(second) =~= simulated(first));
    } else {
        lemma_simulated_concat(first, second.drop_last());
        assert((first + second).drop_last() =~= first + second.drop_last());
        assert((first + second).last() == second.last());
        match second.last() {
            ActionView::Simulate(input) => {
                assert((simulated(first) + simulated(second.drop_last())).push(input)
                    =~= simulated(first) + simulated(second.drop_last()).push(input));
            },
            _ => {},
        }
    }
}

/// The inputs that a run of actions synthesizes when one more action is put
/// after it.
pub proof fn lemma_simulated_push(actions: Seq<ActionView>, last: ActionView)
    ensures
        simulated(actions.push(last)) == match last {
            ActionView::Simulate(input) => simulated(actions).push(input),
            _ => simulated(actions),
        },
{
    assert(actions.push(last).drop_last() =~= actions);
}

/// Playing back missed inputs synthesizes exactly those inputs, in order.
pub proof fn lemma_replay_simulates(inputs: Seq<InputEvent>)
    ensures
        simulated(replay_actions(inputs)) == inputs,
    decreases inputs.len(),
{
    if inputs.len() > 0 {
        lemma_replay_simulates(inputs.drop_last());
        let before = replay_actions(inputs.drop_last());
        let simulate = ActionView::Simulate(inputs.last());
        lemma_simulated_push(before, simulate);
        lemma_simulated_push(before.push(simulate), ActionView::Sleep(post_replay_pause()));
        assert(inputs.drop_last().push(inputs.last()) =~= inputs);
    }
}

/// An idle player stays idle through any run of ticks and asks for nothing.
pub proof fn lemma_run_idle(ticks: Seq<TickInput>)
    ensures
        run(PlayerModel::Idle, ticks).next == PlayerModel::Idle,
        run(PlayerModel::Idle, ticks).actions == Seq::<ActionView>::empty(),
    decreases ticks.len(),
{
    if ticks.len() > 0 {
        lemma_run_idle(ticks.drop_first());
        assert(Seq::<ActionView>::empty() + Seq::<ActionView>::empty() =~= Seq::<
            ActionView,
        >::empty());
    }
}

/// Where no `YieldFocus` lies ahead, a run of ticks that is long enough to
/// reach the end of the events synthesizes exactly the inputs among the
/// events still to play, in their order, whatever the time and the window
/// in front at each tick; one tick more, and the player is idle.
pub proof fn lemma_run_without_yield(playing: PlayingModel, ticks: Seq<TickInput>)
    requires
        playing.state is Running,
        playing.event_index <= playing.events.len() <= usize::MAX,
        forall|k: int|
            playing.event_index <= k < playing.events.len() ==> !((
            #[trigger] playing.events[k]).kind is YieldFocus),
        ticks.len() >= playing.events.len() - playing.event_index,
    ensures
        simulated(run(PlayerModel::Playing(playing), ticks).actions) == inputs_of(
            playing.events.skip(playing.event_index as int),
        ),
        ticks.len() > playing.events.len() - playing.event_index ==> run(
            PlayerModel::Playing(playing),
            ticks,
        ).next == PlayerModel::Idle,
    decreases ticks.len(),
{
    let model = PlayerModel::Playing(playing);
    let index = playing.event_index as int;
    let ahead = playing.events.skip(index);
    let none = Seq::<ActionView>::empty();
    if index == playing.events.len() {
        assert(ahead =~= Seq::<Event>::empty());
        if ticks.len() > 0 {
            lemma_run_idle(ticks.drop_first());
            let done = ActionView::Emit(Message::PlaybackDone);
            assert(seq![done] + none =~= none.push(done));
            lemma_simulated_push(none, done);
        }
    } else {
        let first = tick(model, ticks[0].now, ticks[0].focused);
        let event = playing.events[index];
        assert(!(event.kind is YieldFocus));
        let next = first.next->Playing_0;
        assert(next.events == playing.events);
        assert(next.event_index == index + 1);
        lemma_run_without_yield(next, ticks.drop_first());
        let rest = run(first.next, ticks.drop_first());
        lemma_simulated_concat(first.actions, rest.actions);
        assert(ahead =~= seq![event] + playing.events.skip(index + 1));
        lemma_inputs_of_concat(seq![event], playing.events.skip(index + 1));
        lemma_inputs_of_push(Seq::empty(), event);
        assert(seq![event] =~= Seq::<Event>::empty().push(event));
        let played = ActionView::Emit(Message::JustPlayed { index: playing.event_index });
        match event.kind {
            EventKind::Input(Input(input)) => {
                let simulate = ActionView::Simulate(input);
                let pause = ActionView::Sleep(post_simulate_pause());
                lemma_simulated_push(none, simulate);
                lemma_simulated_push(none.push(simulate), pause);
                lemma_simulated_push(none.push(simulate).push(pause), played);
                assert(first.actions =~= none.push(simulate).push(pause).push(played));
                assert(simulated(first.actions) =~= seq![input]);
                assert(inputs_of(seq![event]) =~= seq![input]);
            },
            EventKind::FocusChange { window_title } => {
                let focus = ActionView::SetForegroundWindow(window_title);
                lemma_simulated_push(none, focus);
                lemma_simulated_push(none.push(focus), played);
                assert(first.actions =~= none.push(focus).push(played));
            },
            EventKind::Delay(duration) => {
                let pause = ActionView::Sleep(duration);
                lemma_simulated_push(none, pause);
                lemma_simulated_push(none.push(pause), played);
                assert(first.actions =~= none.push(pause).push(played));
            },
            EventKind::YieldFocus => {},
        }
        assert(simulated(first.actions) + simulated(rest.actions) =~= inputs_of(seq![event])
            + inputs_of(playing.events.skip(index + 1)));
    }
}

/// At the end of a yield the player synthesizes the inputs that were missed
/// inside the yield's window and no others, each once, in strictly
/// ascending order of the times at which they came.
pub proof fn lemma_replay_in_order(playing: PlayingModel)
    requires
        crate::missed::ascending_by_time(playing.missed),
        playing.state is WaitingForMissedEventsAddedToGrabber,
        playing.yield_context is Some,
    ensures
        ({
            let replayed = window(
                playing.missed,
                playing.yield_context->Some_0.start_time,
                playing.state->yield_end_time,
            );
            &&& simulated(missed_ack(PlayerModel::Playing(playing)).actions) == inputs_of_missed(
                replayed,
            )
            &&& crate::missed::ascending_by_time(replayed)
        }),
{
    let context = playing.yield_context->Some_0;
    let end = playing.state->yield_end_time;
    let replayed = window(playing.missed, context.start_time, end);
    crate::missed::lemma_window_ascending(playing.missed, context.start_time, end);
    let focus = seq![ActionView::SetForegroundWindow(context.previous_window_title)];
    lemma_simulated_concat(focus, replay_actions(inputs_of_missed(replayed)));
    lemma_replay_simulates(inputs_of_missed(replayed));
    lemma_simulated_push(Seq::empty(), focus[0]);
    assert(focus =~= Seq::<ActionView>::empty().push(focus[0]));
    assert(simulated(focus) =~= Seq::<InputEvent>::empty());
    assert(simulated(focus) + inputs_of_missed(replayed) =~= inputs_of_missed(replayed));
}

/// The ignore-list with which a playback starts is the inputs of the macro
/// up to its first `YieldFocus`, that event left out, and of the whole
/// macro where it holds none.
pub proof fn lemma_initial_ignore_list(events: Seq<Event>)
    ensures
        ({
            let stop = first_yield_from(events, 0);
            &&& 0 <= stop <= events.len()
            &&& forall|k: int| 0 <= k < stop ==> !((#[trigger] events[k]).kind is YieldFocus)
            &&& stop < events.len() ==> events[stop].kind is YieldFocus
            &&& initialize(PlayerModel::Idle, events).actions == seq![
                ActionView::SendToListener(
                    CommandView::ChangeMode(
                        ModeView::Grab { ignore_list: inputs_of(events.take(stop)) },
                    ),
                ),
            ]
        }),
{
    lemma_first_yield_from(events, 0);
    assert(events.subrange(0, first_yield_from(events, 0)) =~= events.take(
        first_yield_from(events, 0),
    ));
}

impl Playing {
    /// The ignore-list for grab mode: the inputs that the player will
    /// synthesize from the current event on, up to the next `YieldFocus`.
    pub fn build_simulated_event_for_grab_mode(&self) -> (r: Vec<InputEvent>)
        ensures
            r@ == inputs_until_yield(self.events@, self.event_index as int),
    {
        let mut inputs: Vec<InputEvent> = Vec::new();
        let n = self.events.len();
        if self.event_index > n {
            return inputs;
        }
        let from = self.event_index;
        let mut i: usize = from;
        assert(self.events@.subrange(from as int, from as int) =~= Seq::<Event>::empty());
        while i < n && !self.events[i].kind.is_yield_focus()
            invariant
                n == self.events.len(),
                from <= i <= n,
                inputs@ == inputs_of(self.events@.subrange(from as int, i as int)),
                first_yield_from(self.events@, from as int) == first_yield_from(
                    self.events@,
                    i as int,
                ),
            decreases n - i,
        {
            match self.events[i].kind.input() {
                Some(input) => {
                    inputs.push(input);
                },
                None => {},
            }
            assert(self.events@.subrange(from as int, i + 1).drop_last() =~= self.events@.subrange(
                from as int,
                i as int,
            ));
            i += 1;
        }
        inputs
    }

    /// The inputs that were missed from `start` up to `end`, the end left
    /// out, in the order in which they came.
    pub fn filtered_missed_events(&self, start: Timestamp, end: Timestamp) -> (r: Vec<InputEvent>)
        ensures
            r@ == inputs_of_missed(window(self.missed_events@, start, end)),
    {
        self.missed_events.inputs_in_window(start, end)
    }
}

impl Player {
    pub fn new() -> (r: Self)
        ensures
            r@ == PlayerModel::Idle,
    {
        Self { state: PlayerState::Idle }
    }

    /// Whether a playback is under way, in whichever of its states.
    pub fn is_playing(&self) -> (r: bool)
        ensures
            r == (self@ is Playing),
    {
        match &self.state {
            PlayerState::Playing(_) => true,
            PlayerState::Idle => false,
        }
    }

    /// Takes the events to play, if the player is idle, and hands back the
    /// command that puts the listener into grab mode.
    pub fn initialize_playback(&mut self, events: Vec<Event>) -> (r: Option<listener::Command>)
        ensures
            final(self)@ == initialize(old(self)@, events@).next,
            match r {
                Some(command) => seq![ActionView::SendToListener(command@)] == initialize(
                    old(self)@,
                    events@,
                ).actions,
                None => initialize(old(self)@, events@).actions == Seq::<ActionView>::empty(),
            },
    {
        if self.is_playing() {
            return None;
        }
        let playing = Playing {
            event_index: 0,
            events,
            state: PlayingState::WaitingForGrabMode,
            missed_events: MissedEvents::new(),
            yield_context: None,
        };
        let simulated_events = playing.build_simulated_event_for_grab_mode();
        let command = listener::Command::ChangeMode(listener::Mode::grab(simulated_events));
        self.state = PlayerState::Playing(playing);
        Some(command)
    }

    /// Takes the listener's word that it grabs.
    pub fn notify_grab_ready(&mut self) -> (r: Option<Message>)
        ensures
            final(self)@ == grab_ready(old(self)@).next,
            match r {
                Some(message) => seq![ActionView::Emit(message)] == grab_ready(old(self)@).actions,
                None => grab_ready(old(self)@).actions == Seq::<ActionView>::empty(),
            },
    {
        match &mut self.state {
            PlayerState::Playing(playing) => match playing.state {
                PlayingState::WaitingForGrabMode => {
                    playing.state = PlayingState::Running;
                    Some(Message::PlaybackJustStarted)
                },
                _ => None,
            },
            PlayerState::Idle => None,
        }
    }

    /// One tick: plays the next event of a running playback, or ends the
    /// playback that has no event left. `now` is the time of the tick and
    /// `focused_window_title` the title of the window in front, `None`
    /// where it could not be had; both are read only where the event to
    /// play is a `FocusChange` or a `YieldFocus`.
    pub fn perform_playback(&mut self, now: Timestamp, focused_window_title: Option<String>) -> (r:
        Vec<Action>)
        ensures
            final(self)@ == tick(old(self)@, now, focused_window_title).next,
            action_views(r@) == tick(old(self)@, now, focused_window_title).actions,
    {
        let mut actions: Vec<Action> = Vec::new();
        let at_end = match &self.state {
            PlayerState::Playing(playing) => match playing.state {
                PlayingState::Running => playing.event_index >= playing.events.len(),
                _ => false,
            },
            PlayerState::Idle => false,
        };
        if at_end {
            self.stop_playback();
            actions.push(Action::Emit(Message::PlaybackDone));
            assert(action_views(actions@) =~= seq![ActionView::Emit(Message::PlaybackDone)]);
            return actions;
        }
        match &mut self.state {
            PlayerState::Playing(playing) => {
                match playing.state {
                    PlayingState::Running => {},
                    _ => {
                        assert(action_views(actions@) =~= Seq::<ActionView>::empty());
                        return actions;
                    },
                }
                let index = playing.event_index;
                let kind = playing.events[index].kind.clone();
                let played = Action::Emit(Message::JustPlayed { index });
                match kind {
                    EventKind::Input(Input(input)) => {
                        actions.push(Action::Simulate(input));
                        actions.push(Action::Sleep(Duration::from_millis(POST_SIMULATE_MILLIS)));
                        actions.push(played);
                        playing.event_index = index + 1;
                        assert(action_views(actions@) =~= seq![
                            ActionView::Simulate(input),
                            ActionView::Sleep(post_simulate_pause()),
                            ActionView::Emit(Message::JustPlayed { index }),
                        ]);
                    },
                    EventKind::FocusChange { window_title } => {
                        match focused_window_title {
                            Some(previous_window_title) => {
                                playing.yield_context = Some(
                                    YieldContext { start_time: now, previous_window_title },
                                );
                            },
                            None => {},
                        }
                        actions.push(Action::SetForegroundWindow(window_title));
                        actions.push(played);
                        playing.event_index = index + 1;
                        assert(action_views(actions@) =~= seq![
                            ActionView::SetForegroundWindow(window_title),
                            ActionView::Emit(Message::JustPlayed { index }),
                        ]);
                    },
                    EventKind::Delay(duration) => {
                        actions.push(Action::Sleep(duration));
                        actions.push(played);
                        playing.event_index = index + 1;
                        assert(action_views(actions@) =~= seq![
                            ActionView::Sleep(duration),
                            ActionView::Emit(Message::JustPlayed { index }),
                        ]);
                    },
                    EventKind::YieldFocus => {
                        let start_time = match &playing.yield_context {
                            Some(context) => Some(context.start_time),
                            None => None,
                        };
                        match start_time {
                            Some(start_time) => {
                                let missed = playing.filtered_missed_events(start_time, now);
                                let ghost inputs = missed@;
                                playing.state =
                                PlayingState::WaitingForMissedEventsAddedToGrabber {
                                    yield_end_time: now,
                                };
                                actions.push(
                                    Action::SendToListener(
                                        listener::Command::SetNextEventsToBeIgnoredByGrab(missed),
                                    ),
                                );
                                actions.push(played);
                                assert(action_views(actions@) =~= seq![
                                    ActionView::SendToListener(
                                        CommandView::SetNextEventsToBeIgnoredByGrab(inputs),
                                    ),
                                    ActionView::Emit(Message::JustPlayed { index }),
                                ]);
                            },
                            None => {
                                actions.push(played);
                                playing.event_index = index + 1;
                                assert(action_views(actions@) =~= seq![
                                    ActionView::Emit(Message::JustPlayed { index }),
                                ]);
                            },
                        }
                    },
                }
            },
            PlayerState::Idle => {
                assert(action_views(actions@) =~= Seq::<ActionView>::empty());
            },
        }
        actions
    }

    /// Ends the playback, if there is one.
    pub fn stop_playback(&mut self)
        ensures
            final(self)@ == PlayerModel::Idle,
    {
        self.state = PlayerState::Idle;
    }

    /// Takes an input that the user made during the playback.
    pub fn store_missed_event(&mut self, event: MissedEvent)
        ensures
            final(self)@ == store_missed(old(self)@, event).next,
    {
        match &mut self.state {
            PlayerState::Playing(playing) => match playing.state {
                PlayingState::Running => {
                    playing.missed_events.insert(event);
                },
                _ => {},
            },
            PlayerState::Idle => {},
        }
    }

    /// Takes the listener's word that the inputs missed during a yield are
    /// on its ignore-list, and hands back what brings them to the window
    /// that was in front before the yield.
    pub fn notify_missed_events_added_to_grabber(&mut self) -> (r: Vec<Action>)
        ensures
            final(self)@ == missed_ack(old(self)@).next,
            action_views(r@) == missed_ack(old(self)@).actions,
    {
        let mut actions: Vec<Action> = Vec::new();
        assert(action_views(actions@) =~= Seq::<ActionView>::empty());
        match &mut self.state {
            PlayerState::Playing(playing) => {
                let yield_end_time = match playing.state {
                    PlayingState::WaitingForMissedEventsAddedToGrabber { yield_end_time } => {
                        yield_end_time
                    },
                    _ => {
                        return actions;
                    },
                };
                let context = match &playing.yield_context {
                    Some(context) => YieldContext {
                        start_time: context.start_time,
                        previous_window_title: context.previous_window_title.clone(),
                    },
                    None => {
                        return actions;
                    },
                };
                let missed = playing.filtered_missed_events(context.start_time, yield_end_time);
                actions.push(Action::SetForegroundWindow(context.previous_window_title));
                let ghost head = action_views(actions@);
                assert(head =~= seq![
                    ActionView::SetForegroundWindow(context.previous_window_title),
                ]);
                let mut i: usize = 0;
                assert(action_views(actions@) =~= head + replay_actions(missed@.take(0)));
                while i < missed.len()
                    invariant
                        i <= missed.len(),
                        action_views(actions@) == head + replay_actions(missed@.take(i as int)),
                    decreases missed.len() - i,
                {
                    let ghost before = action_views(actions@);
                    actions.push(Action::Simulate(missed[i]));
                    actions.push(Action::Sleep(Duration::from_millis(POST_REPLAY_MILLIS)));
                    assert(missed@.take(i + 1).drop_last() =~= missed@.take(i as int));
                    assert(action_views(actions@) =~= before.push(
                        ActionView::Simulate(missed@[i as int]),
                    ).push(ActionView::Sleep(post_replay_pause())));
                    assert(action_views(actions@) =~= head + replay_actions(missed@.take(i + 1)));
                    i += 1;
                }
                assert(missed@.take(missed@.len() as int) =~= missed@);
                playing.missed_events.retain_later_than(yield_end_time);
                playing.yield_context = None;
                if playing.event_index < usize::MAX {
                    playing.event_index = playing.event_index + 1;
                }
                playing.state = PlayingState::Running;
            },
            PlayerState::Idle => {},
        }
        actions
    }

    /// Takes one command and hands back what it asks to be done.
    pub fn handle_command(&mut self, command: Command) -> (r: Vec<Action>)
        ensures
            final(self)@ == after_command(old(self)@, command).next,
            action_views(r@) == after_command(old(self)@, command).actions,
    {
        let mut actions: Vec<Action> = Vec::new();
        assert(action_views(actions@) =~= Seq::<ActionView>::empty());
        match command {
            Command::InitializePlayback(events) => {
                match self.initialize_playback(events) {
                    Some(to_listener) => {
                        actions.push(Action::SendToListener(to_listener));
                        assert(action_views(actions@) =~= seq![
                            ActionView::SendToListener(to_listener@),
                        ]);
                    },
                    None => {},
                }
            },
            Command::NotifyGrabReady => {
                match self.notify_grab_ready() {
                    Some(message) => {
                        actions.push(Action::Emit(message));
                        assert(action_views(actions@) =~= seq![ActionView::Emit(message)]);
                    },
                    None => {},
                }
            },
            Command::StoreMissedEvent(missed_event) => {
                self.store_missed_event(missed_event);
            },
            Command::NotifyMissedEventsAddedToGrabber => {
                return self.notify_missed_events_added_to_grabber();
            },
            Command::StopPlayback => {
                self.stop_playback();
                actions.push(Action::Emit(Message::PlaybackDone));
                assert(action_views(actions@) =~= seq![ActionView::Emit(Message::PlaybackDone)]);
            },
        }
        actions
    }
}

impl Player {
    /// One turn of the player: takes the command that has come, if one
    /// has, and then makes a tick.
    pub fn step(
        &mut self,
        command: Option<Command>,
        now: Timestamp,
        focused_window_title: Option<String>,
    ) -> (r: Vec<Action>)
        ensures
            final(self)@ == turn(old(self)@, command, now, focused_window_title).next,
            action_views(r@) == turn(old(self)@, command, now, focused_window_title).actions,
    {
        let mut actions = match command {
            Some(command) => self.handle_command(command),
            None => {
                let none: Vec<Action> = Vec::new();
                assert(action_views(none@) =~= Seq::<ActionView>::empty());
                none
            },
        };
        let ghost first = action_views(actions@);
        let mut played = self.perform_playback(now, focused_window_title);
        let ghost second = action_views(played@);
        actions.append(&mut played);
        assert(action_views(actions@) =~= first + second);
        actions
    }

    /// The missed events that the player holds, in ascending order of
    /// time; none when it is idle.
    pub fn missed_events(&self) -> (r: Vec<MissedEvent>)
        ensures
            r@ == missed_of(self@),
            crate::missed::ascending_by_time(r@),
    {
        match &self.state {
            PlayerState::Playing(playing) => playing.missed_events.to_vec(),
            PlayerState::Idle => Vec::new(),
        }
    }
}

} // verus!
