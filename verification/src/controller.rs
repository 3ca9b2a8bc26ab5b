//! The controller: it owns the recorded macro and the selection, turns what
//! the user asks for into commands for the listener and the player, and takes
//! what the two report.

use crate::event::{Event, EventKind, Input};
use crate::listener;
use crate::listener::{ListenerMode, ModeView};
use crate::missed::MissedEvent;
use crate::player;
use crate::printable::{events_of, PrintableEvent};
use crate::selection::{
    expanded, first_of, index_after, index_before, last_of, ItemSelectionState,
};
use crate::time::{Duration, Timestamp};
use vstd::prelude::*;

verus! {

/// What the controller is busy with.
#[derive(Clone, Copy, Debug, PartialEq, Eq, Structural)]
pub enum PlaybackMode {
    Idle,
    PlayerWaitsForGrab,
    Play,
    Record,
}

impl Default for PlaybackMode {
    fn default() -> (r: Self)
        ensures
            r == PlaybackMode::Idle,
    {
        PlaybackMode::Idle
    }
}

/// The modifier keys that change what a click on the list selects.
#[derive(Clone, Copy, Debug, PartialEq, Eq, Structural)]
pub struct Modifiers {
    pub control: bool,
    pub shift: bool,
}

/// What can be asked of the list of events.
#[derive(Clone, Copy, Debug, PartialEq, Eq, Structural)]
pub enum ListCommand {
    SelectItem(usize),
    SelectNext,
    SelectPrevious,
    DeleteItem,
}

/// What can be asked of the controller.
#[derive(Clone, Copy, Debug, PartialEq, Eq, Structural)]
pub enum Command {
    StartRecording,
    StartPlayback,
    Stop,
    SetAlwaysOnTop(bool),
    TriggerWindowId,
    /// The window's identity has become known.
    SetWindowId,
    UpdateModifiers(Modifiers),
    AddYieldEventAfterSelected,
    ItemList(ListCommand),
}

/// What the listener and the player tell the controller.
#[derive(Clone, Debug)]
pub enum GlobalEventTrigger {
    /// The listener takes commands from now on.
    ListenerReady,
    ListenerModeJustChanged(listener::Mode),
    ListenerAddGrabIgnoreListDone,
    /// The player takes commands from now on.
    PlayerReady,
    PlayerPlaybackJustStarted,
    PlayerPlaybackJustEnded,
    PlayerJustPlayed(usize),
    Event(Event),
}

/// What happens to the controller from outside.
#[derive(Clone, Debug)]
pub enum Trigger {
    RecordButton,
    PlayButton,
    StopButton,
    AddYieldButton,
    AlwaysOnTopCheckbox(bool),
    /// The window's identity has been found.
    WindowId,
    GlobalEvent(GlobalEventTrigger),
}

#[derive(Clone, Debug)]
pub enum Message {
    Command(Command),
    Trigger(Trigger),
}

/// What the controller wants done, by whoever drives it.
#[derive(Debug, PartialEq)]
pub enum Effect {
    /// Send this command to the listener.
    ToListener(listener::Command),
    /// Send this command to the player.
    ToPlayer(player::Command),
    /// Hand this command to the controller as its next message.
    Dispatch(Command),
    /// Scroll the list so that the selected item shows.
    ScrollToSelected,
    /// Keep the window above the others, or stop doing so.
    ChangeWindowLevel { always_on_top: bool },
    /// Find out the window's identity and report it as `Trigger::WindowId`.
    RequestWindowId,
}

/// An effect as a mathematical value.
pub enum EffectView {
    ToListener(listener::CommandView),
    ToPlayer(player::CommandModel),
    Dispatch(Command),
    ScrollToSelected,
    ChangeWindowLevel { always_on_top: bool },
    RequestWindowId,
}

impl View for Effect {
    type V = EffectView;

    open spec fn view(&self) -> EffectView {
        match self {
            Effect::ToListener(command) => EffectView::ToListener(command@),
            Effect::ToPlayer(command) => EffectView::ToPlayer(command@),
            Effect::Dispatch(command) => EffectView::Dispatch(*command),
            Effect::ScrollToSelected => EffectView::ScrollToSelected,
            Effect::ChangeWindowLevel { always_on_top } => EffectView::ChangeWindowLevel {
                always_on_top: *always_on_top,
            },
            Effect::RequestWindowId => EffectView::RequestWindowId,
        }
    }
}

/// The views of a list of effects.
pub open spec fn effect_views(effects: Seq<Effect>) -> Seq<EffectView> {
    effects.map_values(|e: Effect| e@)
}

/// The controller: the recorded macro, what is selected of it, and what is
/// known of the listener, the player and the window.
#[derive(Debug)]
pub struct State {
    /// Whether the listener takes commands.
    pub listener_connected: bool,
    /// Whether the player takes commands.
    pub player_connected: bool,
    pub current_listener_mode: listener::Mode,
    pub playback_mode: PlaybackMode,
    pub items: Vec<PrintableEvent>,
    pub selected_items_state: ItemSelectionState,
    /// Whether the window's identity is known.
    pub window_known: bool,
    pub always_on_top: bool,
    pub modifiers: Modifiers,
}

/// The controller as a mathematical value.
pub struct StateModel {
    pub listener_connected: bool,
    pub player_connected: bool,
    pub listener_mode: ModeView,
    pub playback_mode: PlaybackMode,
    pub items: Seq<Event>,
    pub selection: Set<usize>,
    pub window_known: bool,
    pub always_on_top: bool,
    pub modifiers: Modifiers,
}

impl View for State {
    type V = StateModel;

    open spec fn view(&self) -> StateModel {
        StateModel {
            listener_connected: self.listener_connected,
            player_connected: self.player_connected,
            listener_mode: self.current_listener_mode@,
            playback_mode: self.playback_mode,
            items: events_of(self.items@),
            selection: self.selected_items_state@,
            window_known: self.window_known,
            always_on_top: self.always_on_top,
            modifiers: self.modifiers,
        }
    }
}

/// The state that a message leads to, and what it asks to be done, in
/// order.
pub struct Outcome {
    pub next: StateModel,
    pub effects: Seq<EffectView>,
}

/// The outcome that changes nothing and asks for nothing.
pub open spec fn unchanged(model: StateModel) -> Outcome {
    Outcome { next: model, effects: Seq::empty() }
}

/// `items` without the items at the selected places, the rest in order.
pub open spec fn without_selected(items: Seq<Event>, selection: Set<usize>) -> Seq<Event>
    decreases items.len(),
{
    if items.len() == 0 {
        Seq::empty()
    } else {
        let before = without_selected(items.drop_last(), selection);
        if items.len() - 1 <= usize::MAX && selection.contains((items.len() - 1) as usize) {
            before
        } else {
            before.push(items.last())
        }
    }
}

/// The smaller of `index` and the last place of a list of `len` items.
pub open spec fn clamped(index: usize, len: nat) -> usize
    recommends
        len > 0,
{
    if index < len {
        index
    } else {
        (len - 1) as usize
    }
}

/// `StartRecording`: the list is emptied, the controller records, and the
/// listener is told to listen.
pub open spec fn start_recording(model: StateModel) -> Outcome {
    Outcome {
        next: StateModel { playback_mode: PlaybackMode::Record, items: Seq::empty(), ..model },
        effects: seq![
            EffectView::ToListener(listener::CommandView::ChangeMode(ModeView::Listen)),
        ],
    }
}

/// `StartPlayback`: where the listener takes commands, the player is handed
/// the list, and the controller waits for the listener to grab. Where it
/// does not, nothing happens.
pub open spec fn start_playback(model: StateModel) -> Outcome {
    if model.listener_connected {
        Outcome {
            next: StateModel { playback_mode: PlaybackMode::PlayerWaitsForGrab, ..model },
            effects: seq![
                EffectView::ToPlayer(player::CommandModel::InitializePlayback(model.items)),
            ],
        }
    } else {
        unchanged(model)
    }
}

/// What `Stop` asks for: the listener disabled, unless it is so already,
/// and then the playback stopped, unless the controller is idle.
pub open spec fn stop_effects(model: StateModel) -> Seq<EffectView> {
    let to_listener = if model.listener_mode is Disabled {
        Seq::empty()
    } else {
        seq![EffectView::ToListener(listener::CommandView::ChangeMode(ModeView::Disabled))]
    };
    let to_player = if model.playback_mode is Idle {
        Seq::empty()
    } else {
        seq![EffectView::ToPlayer(player::CommandModel::StopPlayback)]
    };
    to_listener + to_player
}

/// `Stop`.
pub open spec fn stop(model: StateModel) -> Outcome {
    Outcome {
        next: StateModel { playback_mode: PlaybackMode::Idle, ..model },
        effects: stop_effects(model),
    }
}

/// `SetAlwaysOnTop`: with the window known, its level is changed; else the
/// window's identity is asked for first, and the command put again.
pub open spec fn set_always_on_top(model: StateModel, always_on_top: bool) -> Outcome {
    if model.window_known {
        Outcome {
            next: StateModel { always_on_top, ..model },
            effects: seq![EffectView::ChangeWindowLevel { always_on_top }],
        }
    } else {
        Outcome {
            next: model,
            effects: seq![
                EffectView::Dispatch(Command::TriggerWindowId),
                EffectView::Dispatch(Command::SetAlwaysOnTop(always_on_top)),
            ],
        }
    }
}

/// The place at which `AddYieldEventAfterSelected` puts its event: behind
/// the last selected item, and at the end where nothing is selected or the
/// last selected place lies beyond the list.
pub open spec fn yield_place(model: StateModel) -> int {
    match last_of(model.selection) {
        Some(last) => if last < model.items.len() {
            last + 1
        } else {
            model.items.len() as int
        },
        None => model.items.len() as int,
    }
}

/// `AddYieldEventAfterSelected`: a `YieldFocus` stamped `now` is put into
/// the list at `yield_place`.
pub open spec fn add_yield(model: StateModel, now: Timestamp) -> Outcome {
    Outcome {
        next: StateModel {
            items: model.items.insert(
                yield_place(model),
                Event { time: now, kind: EventKind::YieldFocus },
            ),
            ..model
        },
        effects: Seq::empty(),
    }
}

/// A click on the item at `index`: with the control key down the item is
/// added to the selection, with the shift key the selection is stretched to
/// it, and else it becomes the selection.
pub open spec fn select_item(model: StateModel, index: usize) -> Outcome {
    Outcome {
        next: StateModel {
            selection: if model.modifiers.control {
                model.selection.insert(index)
            } else if model.modifiers.shift {
                expanded(model.selection, index)
            } else {
                set![index]
            },
            ..model
        },
        effects: Seq::empty(),
    }
}

/// `SelectNext`: the item after the last selected one becomes the
/// selection, or the last item of the list where there is none after it,
/// and the list is scrolled to it. Nothing happens where nothing is
/// selected or the list is empty.
pub open spec fn select_next(model: StateModel) -> Outcome {
    match last_of(model.selection) {
        Some(last) if model.items.len() > 0 => Outcome {
            next: StateModel {
                selection: set![clamped(index_after(last), model.items.len())],
                ..model
            },
            effects: seq![EffectView::ScrollToSelected],
        },
        _ => unchanged(model),
    }
}

/// `SelectPrevious`: the item before the first selected one becomes the
/// selection, or the item at 0, and the list is scrolled to it. Nothing
/// happens where nothing is selected.
pub open spec fn select_previous(model: StateModel) -> Outcome {
    match first_of(model.selection) {
        Some(first) => Outcome {
            next: StateModel { selection: set![index_before(first)], ..model },
            effects: seq![EffectView::ScrollToSelected],
        },
        None => unchanged(model),
    }
}

/// `DeleteItem`: the selected items leave the list; the first place that
/// was selected, or the last of the list where that place is gone, becomes
/// the selection, and nothing where the list is empty; and a `Stop` is
/// put. Nothing happens where nothing is selected.
pub open spec fn delete_selected(model: StateModel) -> Outcome {
    match first_of(model.selection) {
        Some(first) => {
            let items = without_selected(model.items, model.selection);
            Outcome {
                next: StateModel {
                    items,
                    selection: if items.len() == 0 {
                        Set::empty()
                    } else {
                        set![clamped(first, items.len())]
                    },
                    ..model
                },
                effects: seq![EffectView::Dispatch(Command::Stop)],
            }
        },
        None => unchanged(model),
    }
}

/// What a command on the list does.
pub open spec fn after_list_command(model: StateModel, command: ListCommand) -> Outcome {
    match command {
        ListCommand::SelectItem(index) => select_item(model, index),
        ListCommand::SelectNext => select_next(model),
        ListCommand::SelectPrevious => select_previous(model),
        ListCommand::DeleteItem => delete_selected(model),
    }
}

/// What a command does. `now` is the time at which it is taken.
pub open spec fn after_command(model: StateModel, command: Command, now: Timestamp) -> Outcome {
    match command {
        Command::StartRecording => start_recording(model),
        Command::StartPlayback => start_playback(model),
        Command::Stop => stop(model),
        Command::SetAlwaysOnTop(always_on_top) => set_always_on_top(model, always_on_top),
        Command::TriggerWindowId => Outcome {
            next: model,
            effects: seq![EffectView::RequestWindowId],
        },
        Command::SetWindowId => Outcome {
            next: StateModel { window_known: true, ..model },
            effects: Seq::empty(),
        },
        Command::UpdateModifiers(modifiers) => Outcome {
            next: StateModel { modifiers, ..model },
            effects: Seq::empty(),
        },
        Command::AddYieldEventAfterSelected => add_yield(model, now),
        Command::ItemList(command) => after_list_command(model, command),
    }
}

/// The list after an event was recorded behind it: the event is put at the
/// end, and before it, where the list was not empty and the event is not
/// older than the list's last, a pause of the time from that one to the
/// event, stamped `now`.
pub open spec fn recorded(items: Seq<Event>, event: Event, now: Timestamp) -> Seq<Event> {
    if items.len() > 0 {
        match event.time.spec_duration_since(items.last().time) {
            Some(delay) => items.push(Event { time: now, kind: EventKind::Delay(delay) }).push(
                event,
            ),
            None => items.push(event),
        }
    } else {
        items.push(event)
    }
}

/// What an event that the listener reports does: while the listener
/// listens and the controller records, the event is recorded; while the
/// listener grabs and the controller plays, an input is handed to the
/// player as missed; and else nothing happens.
pub open spec fn after_global_event(model: StateModel, event: Event, now: Timestamp) -> Outcome {
    match (model.listener_mode, model.playback_mode) {
        (ModeView::Listen, PlaybackMode::Record) => Outcome {
            next: StateModel { items: recorded(model.items, event, now), ..model },
            effects: Seq::empty(),
        },
        (ModeView::Grab { .. }, PlaybackMode::Play) => match event.kind {
            EventKind::Input(Input(input)) => Outcome {
                next: model,
                effects: seq![
                    EffectView::ToPlayer(
                        player::CommandModel::StoreMissedEvent(
                            MissedEvent { event: input, time: event.time },
                        ),
                    ),
                ],
            },
            _ => unchanged(model),
        },
        _ => unchanged(model),
    }
}

/// What a message of the listener or the player does.
pub open spec fn after_global_event_message(
    model: StateModel,
    message: GlobalEventTrigger,
    now: Timestamp,
) -> Outcome {
    match message {
        GlobalEventTrigger::ListenerReady => Outcome {
            next: StateModel { listener_connected: true, ..model },
            effects: Seq::empty(),
        },
        GlobalEventTrigger::ListenerModeJustChanged(mode) => Outcome {
            next: StateModel { listener_mode: mode@, ..model },
            effects: if model.playback_mode is PlayerWaitsForGrab && mode@ is Grab {
                seq![EffectView::ToPlayer(player::CommandModel::NotifyGrabReady)]
            } else {
                Seq::empty()
            },
        },
        GlobalEventTrigger::ListenerAddGrabIgnoreListDone => Outcome {
            next: model,
            effects: seq![
                EffectView::ToPlayer(player::CommandModel::NotifyMissedEventsAddedToGrabber),
            ],
        },
        GlobalEventTrigger::PlayerReady => Outcome {
            next: StateModel { player_connected: true, ..model },
            effects: Seq::empty(),
        },
        GlobalEventTrigger::PlayerPlaybackJustStarted => Outcome {
            next: StateModel { playback_mode: PlaybackMode::Play, ..model },
            effects: Seq::empty(),
        },
        GlobalEventTrigger::PlayerPlaybackJustEnded => Outcome {
            next: model,
            effects: seq![EffectView::Dispatch(Command::Stop)],
        },
        GlobalEventTrigger::PlayerJustPlayed(index) => Outcome {
            next: StateModel { selection: set![index], ..model },
            effects: Seq::empty(),
        },
        GlobalEventTrigger::Event(event) => after_global_event(model, event, now),
    }
}

/// The command that a button, the checkbox or the window's report stands
/// for.
pub open spec fn command_of(trigger: Trigger) -> Option<Command> {
    match trigger {
        Trigger::RecordButton => Some(Command::StartRecording),
        Trigger::PlayButton => Some(Command::StartPlayback),
        Trigger::StopButton => Some(Command::Stop),
        Trigger::AddYieldButton => Some(Command::AddYieldEventAfterSelected),
        Trigger::AlwaysOnTopCheckbox(checked) => Some(Command::SetAlwaysOnTop(checked)),
        Trigger::WindowId => Some(Command::SetWindowId),
        Trigger::GlobalEvent(_) => None,
    }
}

/// What a trigger does: one that stands for a command puts that command,
/// and a message of the listener or the player is taken.
pub open spec fn after_trigger(model: StateModel, trigger: Trigger, now: Timestamp) -> Outcome {
    match trigger {
        Trigger::GlobalEvent(message) => after_global_event_message(model, message, now),
        _ => Outcome {
            next: model,
            effects: seq![EffectView::Dispatch(command_of(trigger)->Some_0)],
        },
    }
}

/// What a message does.
pub open spec fn after_message(model: StateModel, message: Message, now: Timestamp) -> Outcome {
    match message {
        Message::Command(command) => after_command(model, command, now),
        Message::Trigger(trigger) => after_trigger(model, trigger, now),
    }
}

/// An event as the listener reports it, with the time at which the
/// controller takes it.
pub struct Report {
    pub event: Event,
    pub now: Timestamp,
}

/// The list after a run of reports was recorded behind it, one by one.
pub open spec fn recorded_all(items: Seq<Event>, reports: Seq<Report>) -> Seq<Event>
    decreases reports.len(),
{
    if reports.len() == 0 {
        items
    } else {
        recorded(recorded_all(items, reports.drop_last()), reports.last().event, reports.last().now)
    }
}

/// Whether every pause in `list` stands between two events that are no
/// pauses and lasts from the time of the one to the time of the other, and
/// whether, where two events that are no pauses stand side by side, the
/// second is older than the first.
pub open spec fn delays_measure_gaps(list: Seq<Event>) -> bool {
    &&& forall|i: int|
        0 <= i < list.len() && (#[trigger] list[i]).kind is Delay ==> {
            &&& 0 < i < list.len() - 1
            &&& !(list[i - 1].kind is Delay)
            &&& !(list[i + 1].kind is Delay)
            &&& list[i - 1].time.nanos <= list[i + 1].time.nanos
            &&& list[i].kind->Delay_0.nanos == list[i + 1].time.nanos - list[i - 1].time.nanos
        }
    &&& forall|i: int|
        0 <= i < list.len() - 1 && !((#[trigger] list[i]).kind is Delay) && !(list[i + 1].kind
            is Delay) ==> list[i + 1].time.nanos < list[i].time.nanos
}

/// In a list recorded from nothing, each pause stands between the two
/// events that it parts and lasts exactly from the time of the first to the
/// time of the second; two events have no pause between them only where
/// the second is older than the first, so that the time between them could
/// not be taken.
pub proof fn lemma_recorded_delays(reports: Seq<Report>)
    requires
        forall|k: int| 0 <= k < reports.len() ==> !((#[trigger] reports[k]).event.kind is Delay),
    ensures
        delays_measure_gaps(recorded_all(Seq::empty(), reports)),
        reports.len() > 0 ==> recorded_all(Seq::empty(), reports).len() > 0 && recorded_all(
            Seq::empty(),
            reports,
        ).last() == reports.last().event,
    decreases reports.len(),
{
    if reports.len() > 0 {
        let earlier = reports.drop_last();
        assert forall|k: int| 0 <= k < earlier.len() implies !((#[trigger] earlier[k]).event.kind
            is Delay) by {
            assert(earlier[k] == reports[k]);
        }
        lemma_recorded_delays(earlier);
        let before = recorded_all(Seq::empty(), earlier);
        let event = reports.last().event;
        let list = recorded_all(Seq::empty(), reports);
        assert(!(reports[reports.len() - 1].event.kind is Delay));
        if earlier.len() > 0 {
            assert(!(earlier[earlier.len() - 1].event.kind is Delay));
            assert(!(before.last().kind is Delay));
        }
        assert forall|i: int| 0 <= i < list.len() && (#[trigger] list[i]).kind is Delay implies {
            &&& 0 < i < list.len() - 1
            &&& !(list[i - 1].kind is Delay)
            &&& !(list[i + 1].kind is Delay)
            &&& list[i - 1].time.nanos <= list[i + 1].time.nanos
            &&& list[i].kind->Delay_0.nanos == list[i + 1].time.nanos - list[i - 1].time.nanos
        } by {
            if i < before.len() {
                assert(list[i] == before[i]);
                assert(list[i - 1] == before[i - 1]);
                assert(list[i + 1] == before[i + 1]);
            }
        }
        assert forall|i: int|
            0 <= i < list.len() - 1 && !((#[trigger] list[i]).kind is Delay) && !(list[i
                + 1].kind is Delay) implies list[i + 1].time.nanos < list[i].time.nanos by {
            if i < before.len() - 1 {
                assert(list[i] == before[i]);
                assert(list[i + 1] == before[i + 1]);
            }
        }
    }
}

impl State {
    /// The controller at the start: idle, nothing known of the listener,
    /// the player or the window, `items` as the macro, and a first effect
    /// that asks for the window to be kept on top.
    pub fn new(items: Vec<PrintableEvent>) -> (r: (State, Vec<Effect>))
        ensures
            r.0@ == (StateModel {
                listener_connected: false,
                player_connected: false,
                listener_mode: ModeView::Disabled,
                playback_mode: PlaybackMode::Idle,
                items: events_of(items@),
                selection: Set::empty(),
                window_known: false,
                always_on_top: true,
                modifiers: Modifiers { control: false, shift: false },
            }),
            effect_views(r.1@) == seq![EffectView::Dispatch(Command::SetAlwaysOnTop(true))],
    {
        let state = State {
            listener_connected: false,
            player_connected: false,
            current_listener_mode: listener::Mode::Disabled,
            playback_mode: PlaybackMode::Idle,
            items,
            selected_items_state: ItemSelectionState::new(),
            window_known: false,
            always_on_top: true,
            modifiers: Modifiers { control: false, shift: false },
        };
        let mut effects: Vec<Effect> = Vec::new();
        effects.push(Effect::Dispatch(Command::SetAlwaysOnTop(true)));
        assert(effect_views(effects@) =~= seq![
            EffectView::Dispatch(Command::SetAlwaysOnTop(true)),
        ]);
        (state, effects)
    }

    /// The window's title.
    pub fn title(&self) -> (r: String)
        ensures
            r@ == "Powerkey"@,
    {
        "Powerkey".to_owned()
    }

    /// The events of the list.
    pub fn events(&self) -> (r: Vec<Event>)
        ensures
            r@ == events_of(self.items@),
    {
        let mut events: Vec<Event> = Vec::new();
        let mut i: usize = 0;
        while i < self.items.len()
            invariant
                i <= self.items.len(),
                events@ == events_of(self.items@.take(i as int)),
            decreases self.items.len() - i,
        {
            events.push(self.items[i].0.clone());
            i += 1;
            assert(events@ =~= events_of(self.items@.take(i as int)));
        }
        assert(self.items@.take(self.items@.len() as int) =~= self.items@);
        events
    }

    fn stop(&mut self) -> (r: Vec<Effect>)
        ensures
            final(self)@ == stop(old(self)@).next,
            effect_views(r@) == stop(old(self)@).effects,
    {
        let mut effects: Vec<Effect> = Vec::new();
        assert(effect_views(effects@) =~= Seq::<EffectView>::empty());
        match self.current_listener_mode.kind() {
            ListenerMode::Disabled => {},
            _ => {
                effects.push(
                    Effect::ToListener(listener::Command::ChangeMode(listener::Mode::Disabled)),
                );
            },
        }
        match self.playback_mode {
            PlaybackMode::Idle => {},
            _ => {
                effects.push(Effect::ToPlayer(player::Command::StopPlayback));
            },
        }
        assert(effect_views(effects@) =~= stop_effects(self@));
        self.playback_mode = PlaybackMode::Idle;
        effects
    }

    fn add_yield_event_after_selected(&mut self, now: Timestamp)
        ensures
            final(self)@ == add_yield(old(self)@, now).next,
    {
        let yield_event = PrintableEvent(Event::new(now, EventKind::YieldFocus));
        let len = self.items.len();
        let place = match self.selected_items_state.get_last_selected() {
            Some(last) => if last < len {
                last + 1
            } else {
                len
            },
            None => len,
        };
        let ghost before = self.items@;
        self.items.insert(place, yield_event);
        assert(events_of(self.items@) =~= events_of(before).insert(place as int, yield_event.0));
    }

    fn delete_selected(&mut self) -> (r: Vec<Effect>)
        ensures
            final(self)@ == delete_selected(old(self)@).next,
            effect_views(r@) == delete_selected(old(self)@).effects,
    {
        let mut effects: Vec<Effect> = Vec::new();
        assert(effect_views(effects@) =~= Seq::<EffectView>::empty());
        let first = match self.selected_items_state.get_first_selected() {
            Some(first) => first,
            None => {
                return effects;
            },
        };
        let selected = self.selected_items_state.iter();
        let ghost selection = self.selected_items_state@;
        let ghost all = events_of(self.items@);
        let mut kept: Vec<PrintableEvent> = Vec::new();
        let mut i: usize = 0;
        let mut j: usize = 0;
        assert(events_of(kept@) =~= without_selected(all.take(0), selection));
        while i < self.items.len()
            invariant
                i <= self.items.len(),
                j <= selected.len(),
                all == events_of(self.items@),
                crate::selection::strictly_ascending(selected@),
                selected@.to_set() == selection,
                forall|k: int| 0 <= k < j ==> selected@[k] < i,
                forall|k: int| j <= k < selected@.len() ==> selected@[k] >= i,
                events_of(kept@) == without_selected(all.take(i as int), selection),
            decreases self.items.len() - i,
        {
            let is_selected = j < selected.len() && selected[j] == i;
            assert(is_selected == selection.contains(i)) by {
                if is_selected {
                    assert(selected@.contains(selected@[j as int]));
                } else if selection.contains(i) {
                    let k = choose|k: int| 0 <= k < selected@.len() && selected@[k] == i;
                    if k > j {
                        assert(selected@[j as int] < selected@[k]);
                    }
                }
            }
            assert(all.take(i + 1).drop_last() =~= all.take(i as int));
            if is_selected {
                j += 1;
            } else {
                let ghost before = events_of(kept@);
                kept.push(self.items[i].clone());
                assert(events_of(kept@) =~= before.push(all[i as int]));
            }
            i += 1;
        }
        assert(all.take(all.len() as int) =~= all);
        self.items = kept;
        if self.items.len() == 0 {
            self.selected_items_state.unselect();
        } else {
            let last = self.items.len() - 1;
            self.selected_items_state.select(if first < last {
                first
            } else {
                last
            });
        }
        effects.push(Effect::Dispatch(Command::Stop));
        assert(effect_views(effects@) =~= seq![EffectView::Dispatch(Command::Stop)]);
        effects
    }

    /// Takes a command on the list.
    pub fn handle_list_command(&mut self, command: ListCommand) -> (r: Vec<Effect>)
        ensures
            final(self)@ == after_list_command(old(self)@, command).next,
            effect_views(r@) == after_list_command(old(self)@, command).effects,
    {
        let mut effects: Vec<Effect> = Vec::new();
        assert(effect_views(effects@) =~= Seq::<EffectView>::empty());
        match command {
            ListCommand::SelectItem(index) => {
                if self.modifiers.control {
                    self.selected_items_state.add_item_to_selection(index);
                } else if self.modifiers.shift {
                    self.selected_items_state.expand_to(index);
                } else {
                    self.selected_items_state.select(index);
                }
            },
            ListCommand::SelectNext => {
                match self.selected_items_state.get_last_selected() {
                    Some(last_item_selected) => {
                        let len = self.items.len();
                        if len > 0 {
                            let next_index = if last_item_selected < len - 1 {
                                last_item_selected + 1
                            } else {
                                len - 1
                            };
                            self.selected_items_state.select(next_index);
                            effects.push(Effect::ScrollToSelected);
                            assert(effect_views(effects@) =~= seq![EffectView::ScrollToSelected]);
                        }
                    },
                    None => {},
                }
            },
            ListCommand::SelectPrevious => {
                match self.selected_items_state.get_first_selected() {
                    Some(first_item_selected) => {
                        let previous_index = if first_item_selected > 0 {
                            first_item_selected - 1
                        } else {
                            0
                        };
                        self.selected_items_state.select(previous_index);
                        effects.push(Effect::ScrollToSelected);
                        assert(effect_views(effects@) =~= seq![EffectView::ScrollToSelected]);
                    },
                    None => {},
                }
            },
            ListCommand::DeleteItem => {
                return self.delete_selected();
            },
        }
        effects
    }

    /// Takes a command. `now` is the time at which it is taken.
    pub fn handle_command(&mut self, command: Command, now: Timestamp) -> (r: Vec<Effect>)
        ensures
            final(self)@ == after_command(old(self)@, command, now).next,
            effect_views(r@) == after_command(old(self)@, command, now).effects,
    {
        let mut effects: Vec<Effect> = Vec::new();
        assert(effect_views(effects@) =~= Seq::<EffectView>::empty());
        match command {
            Command::StartRecording => {
                self.playback_mode = PlaybackMode::Record;
                self.items.clear();
                assert(events_of(self.items@) =~= Seq::<Event>::empty());
                effects.push(
                    Effect::ToListener(listener::Command::ChangeMode(listener::Mode::Listen)),
                );
                assert(effect_views(effects@) =~= seq![
                    EffectView::ToListener(listener::CommandView::ChangeMode(ModeView::Listen)),
                ]);
            },
            Command::StartPlayback => {
                if self.listener_connected {
                    let events = self.events();
                    effects.push(Effect::ToPlayer(player::Command::InitializePlayback(events)));
                    self.playback_mode = PlaybackMode::PlayerWaitsForGrab;
                    assert(effect_views(effects@) =~= seq![
                        EffectView::ToPlayer(
                            player::CommandModel::InitializePlayback(events_of(self.items@)),
                        ),
                    ]);
                }
            },
            Command::Stop => {
                return self.stop();
            },
            Command::SetAlwaysOnTop(always_on_top) => {
                if self.window_known {
                    self.always_on_top = always_on_top;
                    effects.push(Effect::ChangeWindowLevel { always_on_top });
                    assert(effect_views(effects@) =~= seq![
                        EffectView::ChangeWindowLevel { always_on_top },
                    ]);
                } else {
                    effects.push(Effect::Dispatch(Command::TriggerWindowId));
                    effects.push(Effect::Dispatch(Command::SetAlwaysOnTop(always_on_top)));
                    assert(effect_views(effects@) =~= seq![
                        EffectView::Dispatch(Command::TriggerWindowId),
                        EffectView::Dispatch(Command::SetAlwaysOnTop(always_on_top)),
                    ]);
                }
            },
            Command::TriggerWindowId => {
                effects.push(Effect::RequestWindowId);
                assert(effect_views(effects@) =~= seq![EffectView::RequestWindowId]);
            },
            Command::SetWindowId => {
                self.window_known = true;
            },
            Command::UpdateModifiers(modifiers) => {
                self.modifiers = modifiers;
            },
            Command::AddYieldEventAfterSelected => {
                self.add_yield_event_after_selected(now);
            },
            Command::ItemList(command) => {
                return self.handle_list_command(command);
            },
        }
        effects
    }

    /// Takes an event that the listener reports. `now` is the time at
    /// which it is taken.
    pub fn handle_global_event(&mut self, event: Event, now: Timestamp) -> (r: Vec<Effect>)
        ensures
            final(self)@ == after_global_event(old(self)@, event, now).next,
            effect_views(r@) == after_global_event(old(self)@, event, now).effects,
    {
        let mut effects: Vec<Effect> = Vec::new();
        assert(effect_views(effects@) =~= Seq::<EffectView>::empty());
        match (self.current_listener_mode.kind(), self.playback_mode) {
            (ListenerMode::Listen, PlaybackMode::Record) => {
                let ghost before = events_of(self.items@);
                let len = self.items.len();
                if len > 0 {
                    match event.time.duration_since(self.items[len - 1].0.time) {
                        Some(delay) => {
                            self.items.push(
                                PrintableEvent(Event::new(now, EventKind::Delay(delay))),
                            );
                        },
                        None => {},
                    }
                }
                self.items.push(PrintableEvent(event));
                assert(events_of(self.items@) =~= recorded(before, event, now));
            },
            (ListenerMode::Grab, PlaybackMode::Play) => {
                match event.kind.input() {
                    Some(input) => {
                        let missed = MissedEvent { event: input, time: event.time };
                        effects.push(Effect::ToPlayer(player::Command::StoreMissedEvent(missed)));
                        assert(effect_views(effects@) =~= seq![
                            EffectView::ToPlayer(player::CommandModel::StoreMissedEvent(missed)),
                        ]);
                    },
                    None => {},
                }
            },
            _ => {},
        }
        effects
    }

    /// Takes a message of the listener or the player.
    pub fn handle_global_event_message(
        &mut self,
        global_event_message: GlobalEventTrigger,
        now: Timestamp,
    ) -> (r: Vec<Effect>)
        ensures
            final(self)@ == after_global_event_message(
                old(self)@,
                global_event_message,
                now,
            ).next,
            effect_views(r@) == after_global_event_message(
                old(self)@,
                global_event_message,
                now,
            ).effects,
    {
        let mut effects: Vec<Effect> = Vec::new();
        assert(effect_views(effects@) =~= Seq::<EffectView>::empty());
        match global_event_message {
            GlobalEventTrigger::ListenerReady => {
                self.listener_connected = true;
            },
            GlobalEventTrigger::ListenerModeJustChanged(mode) => {
                let waits = match self.playback_mode {
                    PlaybackMode::PlayerWaitsForGrab => true,
                    _ => false,
                };
                let grabs = match mode.kind() {
                    ListenerMode::Grab => true,
                    _ => false,
                };
                if waits && grabs {
                    effects.push(Effect::ToPlayer(player::Command::NotifyGrabReady));
                    assert(effect_views(effects@) =~= seq![
                        EffectView::ToPlayer(player::CommandModel::NotifyGrabReady),
                    ]);
                }
                self.current_listener_mode = mode;
            },
            GlobalEventTrigger::ListenerAddGrabIgnoreListDone => {
                effects.push(Effect::ToPlayer(player::Command::NotifyMissedEventsAddedToGrabber));
                assert(effect_views(effects@) =~= seq![
                    EffectView::ToPlayer(player::CommandModel::NotifyMissedEventsAddedToGrabber),
                ]);
            },
            GlobalEventTrigger::PlayerReady => {
                self.player_connected = true;
            },
            GlobalEventTrigger::PlayerPlaybackJustStarted => {
                self.playback_mode = PlaybackMode::Play;
            },
            GlobalEventTrigger::PlayerPlaybackJustEnded => {
                effects.push(Effect::Dispatch(Command::Stop));
                assert(effect_views(effects@) =~= seq![EffectView::Dispatch(Command::Stop)]);
            },
            GlobalEventTrigger::PlayerJustPlayed(index) => {
                self.selected_items_state.select(index);
            },
            GlobalEventTrigger::Event(event) => {
                return self.handle_global_event(event, now);
            },
        }
        effects
    }

    /// Takes a trigger.
    pub fn handle_trigger(&mut self, trigger: Trigger, now: Timestamp) -> (r: Vec<Effect>)
        ensures
            final(self)@ == after_trigger(old(self)@, trigger, now).next,
            effect_views(r@) == after_trigger(old(self)@, trigger, now).effects,
    {
        let command = match trigger {
            Trigger::RecordButton => Command::StartRecording,
            Trigger::PlayButton => Command::StartPlayback,
            Trigger::StopButton => Command::Stop,
            Trigger::AddYieldButton => Command::AddYieldEventAfterSelected,
            Trigger::AlwaysOnTopCheckbox(checked) => Command::SetAlwaysOnTop(checked),
            Trigger::WindowId => Command::SetWindowId,
            Trigger::GlobalEvent(global_event_message) => {
                return self.handle_global_event_message(global_event_message, now);
            },
        };
        let mut effects: Vec<Effect> = Vec::new();
        effects.push(Effect::Dispatch(command));
        assert(effect_views(effects@) =~= seq![EffectView::Dispatch(command)]);
        effects
    }

    /// Takes a message. `now` is the time at which it is taken.
    pub fn update(&mut self, message: Message, now: Timestamp) -> (r: Vec<Effect>)
        ensures
            final(self)@ == after_message(old(self)@, message, now).next,
            effect_views(r@) == after_message(old(self)@, message, now).effects,
    {
        match message {
            Message::Command(command) => self.handle_command(command, now),
            Message::Trigger(trigger) => self.handle_trigger(trigger, now),
        }
    }
}

} // verus!
