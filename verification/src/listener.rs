//! The listener: what it does with each event of the global keyboard stream
//! in each of its modes, and how its commands change the mode.

use crate::event::{Event, EventKind, Input, InputEvent};
use crate::time::Timestamp;
use std::collections::VecDeque;
use vstd::prelude::*;

verus! {

/// The three ways in which the listener treats the keyboard stream, without
/// what a mode carries.
#[derive(Clone, Copy, Debug, PartialEq, Eq, Structural)]
pub enum ListenerMode {
    /// Events pass through; nothing is emitted.
    Disabled,
    /// Events pass through and are emitted.
    Listen,
    /// Events are consumed and emitted, but for those that are expected.
    Grab,
}

impl Default for ListenerMode {
    fn default() -> (r: Self)
        ensures
            r == ListenerMode::Disabled,
    {
        ListenerMode::Disabled
    }
}

/// The listener's mode. In `Grab`, `simulated_events` is the ignore-list:
/// the inputs that are expected next, in order, and that are let through.
#[derive(Debug, PartialEq, Eq)]
pub enum Mode {
    Disabled,
    Listen,
    Grab { simulated_events: VecDeque<InputEvent> },
}

/// A mode as a mathematical value.
pub enum ModeView {
    Disabled,
    Listen,
    Grab { ignore_list: Seq<InputEvent> },
}

impl View for Mode {
    type V = ModeView;

    open spec fn view(&self) -> ModeView {
        match self {
            Mode::Disabled => ModeView::Disabled,
            Mode::Listen => ModeView::Listen,
            Mode::Grab { simulated_events } => ModeView::Grab { ignore_list: simulated_events@ },
        }
    }
}

impl ModeView {
    pub open spec fn kind(self) -> ListenerMode {
        match self {
            ModeView::Disabled => ListenerMode::Disabled,
            ModeView::Listen => ListenerMode::Listen,
            ModeView::Grab { .. } => ListenerMode::Grab,
        }
    }
}

impl Default for Mode {
    fn default() -> (r: Self)
        ensures
            r@ == ModeView::Disabled,
    {
        Mode::Disabled
    }
}

impl Clone for Mode {
    fn clone(&self) -> (r: Self)
        ensures
            r@ == self@,
    {
        match self {
            Mode::Disabled => Mode::Disabled,
            Mode::Listen => Mode::Listen,
            Mode::Grab { simulated_events } => {
                let mut copy: VecDeque<InputEvent> = VecDeque::new();
                let mut i: usize = 0;
                while i < simulated_events.len()
                    invariant
                        i <= simulated_events.len(),
                        copy@ == simulated_events@.subrange(0, i as int),
                    decreases simulated_events.len() - i,
                {
                    copy.push_back(simulated_events[i]);
                    i += 1;
                    assert(copy@ =~= simulated_events@.subrange(0, i as int));
                }
                assert(simulated_events@.subrange(0, simulated_events.len() as int)
                    =~= simulated_events@);
                Mode::Grab { simulated_events: copy }
            },
        }
    }
}

impl Mode {
    /// Which of the three modes this is.
    pub fn kind(&self) -> (r: ListenerMode)
        ensures
            r == self@.kind(),
    {
        match self {
            Mode::Disabled => ListenerMode::Disabled,
            Mode::Listen => ListenerMode::Listen,
            Mode::Grab { .. } => ListenerMode::Grab,
        }
    }

    /// Grab mode with the given inputs as its ignore-list, first to last.
    pub fn grab(ignore_list: Vec<InputEvent>) -> (r: Mode)
        ensures
            r@ == (ModeView::Grab { ignore_list: ignore_list@ }),
    {
        let mut simulated_events: VecDeque<InputEvent> = VecDeque::new();
        let mut i: usize = 0;
        while i < ignore_list.len()
            invariant
                i <= ignore_list.len(),
                simulated_events@ == ignore_list@.subrange(0, i as int),
            decreases ignore_list.len() - i,
        {
            simulated_events.push_back(ignore_list[i]);
            i += 1;
            assert(simulated_events@ =~= ignore_list@.subrange(0, i as int));
        }
        assert(ignore_list@.subrange(0, ignore_list.len() as int) =~= ignore_list@);
        Mode::Grab { simulated_events }
    }

    /// The ignore-list of a grab mode, first to last; empty in the other modes.
    pub fn ignore_list(&self) -> (r: Vec<InputEvent>)
        ensures
            r@ == self@.ignore_list(),
    {
        let mut list: Vec<InputEvent> = Vec::new();
        match self {
            Mode::Grab { simulated_events } => {
                let mut i: usize = 0;
                while i < simulated_events.len()
                    invariant
                        i <= simulated_events.len(),
                        list@ == simulated_events@.subrange(0, i as int),
                    decreases simulated_events.len() - i,
                {
                    list.push(simulated_events[i]);
                    i += 1;
                    assert(list@ =~= simulated_events@.subrange(0, i as int));
                }
                assert(simulated_events@.subrange(0, simulated_events.len() as int)
                    =~= simulated_events@);
            },
            _ => {},
        }
        list
    }
}

impl ModeView {
    /// The ignore-list of a grab mode; empty in the other modes.
    pub open spec fn ignore_list(self) -> Seq<InputEvent> {
        match self {
            ModeView::Grab { ignore_list } => ignore_list,
            _ => Seq::empty(),
        }
    }
}

/// What the listener can be asked to do.
#[derive(Debug, PartialEq)]
pub enum Command {
    /// Enter the given mode.
    ChangeMode(Mode),
    /// Put these inputs, in this order, before the ignore-list of grab mode.
    SetNextEventsToBeIgnoredByGrab(Vec<InputEvent>),
}

/// A command as a mathematical value.
pub enum CommandView {
    ChangeMode(ModeView),
    SetNextEventsToBeIgnoredByGrab(Seq<InputEvent>),
}

impl View for Command {
    type V = CommandView;

    open spec fn view(&self) -> CommandView {
        match self {
            Command::ChangeMode(mode) => CommandView::ChangeMode(mode@),
            Command::SetNextEventsToBeIgnoredByGrab(events) => {
                CommandView::SetNextEventsToBeIgnoredByGrab(events@)
            },
        }
    }
}

/// What the listener reports.
#[derive(Debug, PartialEq)]
pub enum Message {
    /// A `ChangeMode` command was taken; the mode is the new one.
    ModeJustSet(Mode),
    /// A `SetNextEventsToBeIgnoredByGrab` command was applied.
    SetNextEventsToBeIgnoredByGrabDone,
    /// An input or a change of focus was observed.
    Event(Event),
}

/// A message as a mathematical value.
pub enum MessageView {
    ModeJustSet(ModeView),
    SetNextEventsToBeIgnoredByGrabDone,
    Event(Event),
}

impl View for Message {
    type V = MessageView;

    open spec fn view(&self) -> MessageView {
        match self {
            Message::ModeJustSet(mode) => MessageView::ModeJustSet(mode@),
            Message::SetNextEventsToBeIgnoredByGrabDone => {
                MessageView::SetNextEventsToBeIgnoredByGrabDone
            },
            Message::Event(event) => MessageView::Event(*event),
        }
    }
}

/// What the platform's hook delivered, before the listener has looked at it.
#[derive(Clone, Copy, Debug, PartialEq, Eq, Structural)]
pub enum RawEventKind {
    Key(InputEvent),
    ButtonPress,
    ButtonRelease,
    MouseMove,
    Wheel,
}

/// An event of the platform's global input stream.
#[derive(Clone, Copy, Debug, PartialEq, Eq, Structural)]
pub struct RawEvent {
    pub time: Timestamp,
    pub kind: RawEventKind,
}

/// The mode in which the listener is after a command.
pub open spec fn mode_after_command(mode: ModeView, command: CommandView) -> ModeView {
    match command {
        CommandView::ChangeMode(new_mode) => new_mode,
        CommandView::SetNextEventsToBeIgnoredByGrab(events) => match mode {
            ModeView::Grab { ignore_list } => ModeView::Grab { ignore_list: events + ignore_list },
            _ => mode,
        },
    }
}

/// The message with which the listener answers a command, if it answers.
pub open spec fn reply_to_command(mode: ModeView, command: CommandView) -> Option<MessageView> {
    match command {
        CommandView::ChangeMode(new_mode) => Some(MessageView::ModeJustSet(new_mode)),
        CommandView::SetNextEventsToBeIgnoredByGrab(_) => if mode is Grab {
            Some(MessageView::SetNextEventsToBeIgnoredByGrabDone)
        } else {
            None
        },
    }
}

/// The mode after a run of commands, taken first to last.
pub open spec fn mode_after_commands(mode: ModeView, commands: Seq<CommandView>) -> ModeView
    decreases commands.len(),
{
    if commands.len() == 0 {
        mode
    } else {
        mode_after_command(mode_after_commands(mode, commands.drop_last()), commands.last())
    }
}

/// The answers to a run of commands, in the order of the commands.
pub open spec fn replies_to_commands(mode: ModeView, commands: Seq<CommandView>) -> Seq<
    MessageView,
>
    decreases commands.len(),
{
    if commands.len() == 0 {
        Seq::empty()
    } else {
        let before = replies_to_commands(mode, commands.drop_last());
        match reply_to_command(
            mode_after_commands(mode, commands.drop_last()),
            commands.last(),
        ) {
            Some(message) => before.push(message),
            None => before,
        }
    }
}

/// What the listener decides about one event of the platform's stream.
pub struct Verdict {
    /// The mode after the event.
    pub mode: ModeView,
    /// Whether the event goes on to the window it was meant for.
    pub pass_through: bool,
    /// Whether the event is reported as an input.
    pub emitted: bool,
}

/// Whether `input` is what grab mode expects next.
pub open spec fn matches_front(ignore_list: Seq<InputEvent>, input: InputEvent) -> bool {
    ignore_list.len() > 0 && ignore_list[0] == input
}

/// The listener's decision on an event in a mode. Mouse events pass in
/// every mode and are never reported. A key event passes unreported when
/// disabled, passes and is reported when listening, and in grab mode either
/// matches the front of the ignore-list, which it then uses up, or is
/// reported and withheld.
pub open spec fn classify(mode: ModeView, kind: RawEventKind) -> Verdict {
    match kind {
        RawEventKind::Key(input) => match mode {
            ModeView::Disabled => Verdict { mode, pass_through: true, emitted: false },
            ModeView::Listen => Verdict { mode, pass_through: true, emitted: true },
            ModeView::Grab { ignore_list } => if matches_front(ignore_list, input) {
                Verdict {
                    mode: ModeView::Grab { ignore_list: ignore_list.drop_first() },
                    pass_through: true,
                    emitted: false,
                }
            } else {
                Verdict { mode, pass_through: false, emitted: true }
            },
        },
        _ => Verdict { mode, pass_through: true, emitted: false },
    }
}

/// The report of a key event.
pub open spec fn input_report(event: RawEvent) -> MessageView
    recommends
        event.kind is Key,
{
    MessageView::Event(
        Event { time: event.time, kind: EventKind::Input(Input(event.kind->Key_0)) },
    )
}

/// The messages that one event brings forth: its report, if it is reported.
pub open spec fn reports(mode: ModeView, event: RawEvent) -> Seq<MessageView> {
    if classify(mode, event.kind).emitted {
        seq![input_report(event)]
    } else {
        Seq::empty()
    }
}

/// Whether `title` is the title last seen.
pub open spec fn is_current_title(current: Option<String>, title: String) -> bool {
    current matches Some(seen) && seen@ == title@
}

/// What is reported when the window titled `title` comes to the front: a
/// change of focus stamped `now`, unless that title was the one last seen.
pub open spec fn focus_report(current: Option<String>, title: String, now: Timestamp) -> Option<
    MessageView,
> {
    if is_current_title(current, title) {
        None
    } else {
        Some(
            MessageView::Event(
                Event { time: now, kind: EventKind::FocusChange { window_title: title } },
            ),
        )
    }
}

/// The views of a list of commands.
pub open spec fn command_views(commands: Seq<Command>) -> Seq<CommandView> {
    commands.map_values(|c: Command| c@)
}

/// The views of a list of messages.
pub open spec fn message_views(messages: Seq<Message>) -> Seq<MessageView> {
    messages.map_values(|m: Message| m@)
}

/// The mode after a run of events of the platform's stream.
pub open spec fn mode_after_events(mode: ModeView, events: Seq<RawEventKind>) -> ModeView
    decreases events.len(),
{
    if events.len() == 0 {
        mode
    } else {
        classify(mode_after_events(mode, events.drop_last()), events.last()).mode
    }
}

/// Those of a run of events that the listener lets through, in order.
pub open spec fn passed_through(mode: ModeView, events: Seq<RawEventKind>) -> Seq<RawEventKind>
    decreases events.len(),
{
    if events.len() == 0 {
        Seq::empty()
    } else {
        let before = passed_through(mode, events.drop_last());
        if classify(mode_after_events(mode, events.drop_last()), events.last()).pass_through {
            before.push(events.last())
        } else {
            before
        }
    }
}

/// Those of a run of events that the listener withholds, in order.
pub open spec fn consumed(mode: ModeView, events: Seq<RawEventKind>) -> Seq<RawEventKind>
    decreases events.len(),
{
    if events.len() == 0 {
        Seq::empty()
    } else {
        let before = consumed(mode, events.drop_last());
        if classify(mode_after_events(mode, events.drop_last()), events.last()).pass_through {
            before
        } else {
            before.push(events.last())
        }
    }
}

/// Those of a run of events that the listener reports, in order.
pub open spec fn reported(mode: ModeView, events: Seq<RawEventKind>) -> Seq<RawEventKind>
    decreases events.len(),
{
    if events.len() == 0 {
        Seq::empty()
    } else {
        let before = reported(mode, events.drop_last());
        if classify(mode_after_events(mode, events.drop_last()), events.last()).emitted {
            before.push(events.last())
        } else {
            before
        }
    }
}

/// A run of inputs as events of the platform's stream.
pub open spec fn key_events(inputs: Seq<InputEvent>) -> Seq<RawEventKind> {
    inputs.map_values(|input: InputEvent| RawEventKind::Key(input))
}

/// In grab mode, of any run of key events, those that pass are exactly those
/// that met the front of the ignore-list when they came: together they are
/// the part of the ignore-list that was used up, in its order, and the rest
/// of the list is what the mode still holds. Every other key event is
/// withheld and reported.
pub proof fn lemma_grab_passes_only_the_expected(
    ignore_list: Seq<InputEvent>,
    inputs: Seq<InputEvent>,
)
    ensures
        ({
            let mode = ModeView::Grab { ignore_list };
            let events = key_events(inputs);
            let used = passed_through(mode, events).len() as int;
            &&& used <= ignore_list.len()
            &&& passed_through(mode, events) == key_events(ignore_list.take(used))
            &&& mode_after_events(mode, events) == ModeView::Grab {
                ignore_list: ignore_list.skip(used),
            }
            &&& consumed(mode, events) == reported(mode, events)
            &&& used + consumed(mode, events).len() == inputs.len()
        }),
    decreases inputs.len(),
{
    let mode = ModeView::Grab { ignore_list };
    let events = key_events(inputs);
    if inputs.len() == 0 {
        assert(key_events(ignore_list.take(0)) =~= Seq::<RawEventKind>::empty());
        assert(ignore_list.skip(0) =~= ignore_list);
    } else {
        let before = inputs.drop_last();
        lemma_grab_passes_only_the_expected(ignore_list, before);
        assert(events.drop_last() =~= key_events(before));
        assert(events.last() == RawEventKind::Key(inputs.last()));
        let used = passed_through(mode, key_events(before)).len() as int;
        let rest = ignore_list.skip(used);
        if matches_front(rest, inputs.last()) {
            assert(rest.drop_first() =~= ignore_list.skip(used + 1));
            assert(key_events(ignore_list.take(used)).push(events.last()) =~= key_events(
                ignore_list.take(used + 1),
            ));
        }
    }
}

/// A key event is let through in grab mode if and only if it is the front of
/// the ignore-list; if it is not, it is withheld, reported, and the list
/// stays as it was, however far down the list the event may stand.
pub proof fn lemma_grab_matches_front_only(ignore_list: Seq<InputEvent>, input: InputEvent)
    ensures
        ({
            let verdict = classify(ModeView::Grab { ignore_list }, RawEventKind::Key(input));
            &&& verdict.pass_through <==> matches_front(ignore_list, input)
            &&& verdict.emitted <==> !verdict.pass_through
            &&& !verdict.pass_through ==> verdict.mode == ModeView::Grab { ignore_list }
            &&& verdict.pass_through ==> verdict.mode == ModeView::Grab {
                ignore_list: ignore_list.drop_first(),
            }
        }),
{
}

/// Whether none of the commands changes the mode.
pub open spec fn no_mode_change(commands: Seq<CommandView>) -> bool {
    forall|i: int| 0 <= i < commands.len() ==> !(#[trigger] commands[i] is ChangeMode)
}

/// Commands that change no mode leave the listener in the kind of mode in
/// which it was.
pub proof fn lemma_kind_kept_without_mode_change(mode: ModeView, commands: Seq<CommandView>)
    requires
        no_mode_change(commands),
    ensures
        mode_after_commands(mode, commands).kind() == mode.kind(),
    decreases commands.len(),
{
    if commands.len() > 0 {
        lemma_kind_kept_without_mode_change(mode, commands.drop_last());
        assert(!(commands[commands.len() - 1] is ChangeMode));
    }
}

/// The mode after two runs of commands is the mode after the second run,
/// begun in the mode that the first run left.
pub proof fn lemma_mode_after_commands_split(
    mode: ModeView,
    first: Seq<CommandView>,
    second: Seq<CommandView>,
)
    ensures
        mode_after_commands(mode, first + second) == mode_after_commands(
            mode_after_commands(mode, first),
            second,
        ),
    decreases second.len(),
{
    if second.len() == 0 {
        assert(first + second =~= first);
    } else {
        lemma_mode_after_commands_split(mode, first, second.drop_last());
        assert((first + second).drop_last() =~= first + second.drop_last());
        assert((first + second).last() == second.last());
    }
}

/// A change of mode that was asked for before an event came is in force when
/// the event is decided on: if the commands pending at the event hold
/// `ChangeMode(new_mode)` and no change of mode after it, the event is
/// decided on in a mode of the kind of `new_mode`; and if nothing at all
/// follows it, in `new_mode` itself.
pub proof fn lemma_mode_change_precedes_event(
    mode: ModeView,
    earlier: Seq<CommandView>,
    new_mode: ModeView,
    later: Seq<CommandView>,
)
    requires
        no_mode_change(later),
    ensures
        mode_after_commands(
            mode,
            earlier.push(CommandView::ChangeMode(new_mode)) + later,
        ).kind() == new_mode.kind(),
        later.len() == 0 ==> mode_after_commands(
            mode,
            earlier.push(CommandView::ChangeMode(new_mode)) + later,
        ) == new_mode,
{
    let first = earlier.push(CommandView::ChangeMode(new_mode));
    lemma_mode_after_commands_split(mode, first, later);
    assert(first.drop_last() =~= earlier);
    assert(mode_after_commands(mode, first) == new_mode);
    lemma_kind_kept_without_mode_change(new_mode, later);
}

/// What `on_key_event` hands back.
#[derive(Debug, PartialEq)]
pub struct KeyOutcome {
    /// Whether the platform is to deliver the event to its window.
    pub pass_through: bool,
    /// What is reported of the event.
    pub message: Option<Message>,
}

/// What `on_event` hands back.
#[derive(Debug, PartialEq)]
pub struct EventOutcome {
    /// Whether the platform is to deliver the event to its window.
    pub pass_through: bool,
    /// The answers to the pending commands, then the report of the event.
    pub messages: Vec<Message>,
}

/// What reaches the listener: an event of the platform's keyboard hook that
/// waits for its verdict, a command, or the title of the window that has
/// come to the front.
#[derive(Debug)]
pub enum AllEvent {
    GrabMessage(RawEvent),
    Command(Command),
    Focus(String),
}

/// What `handle` hands back.
#[derive(Debug, PartialEq)]
pub struct Reaction {
    /// What the listener reports, in order.
    pub messages: Vec<Message>,
    /// The verdict that the keyboard hook waits for, where it does: whether
    /// the event is to be delivered.
    pub response: Option<bool>,
}

/// What `handle` reports and answers.
pub struct ReactionView {
    pub messages: Seq<MessageView>,
    pub response: Option<bool>,
}

/// The messages of an optional message.
pub open spec fn as_messages(message: Option<MessageView>) -> Seq<MessageView> {
    match message {
        Some(message) => seq![message],
        None => Seq::empty(),
    }
}

/// What the listener in mode `mode`, with `current` as the title last seen,
/// reports and answers to what reaches it at the time `now`.
pub open spec fn reaction(
    mode: ModeView,
    current: Option<String>,
    event: AllEvent,
    now: Timestamp,
) -> ReactionView {
    match event {
        AllEvent::GrabMessage(raw) => ReactionView {
            messages: reports(mode, raw),
            response: Some(classify(mode, raw.kind).pass_through),
        },
        AllEvent::Command(command) => ReactionView {
            messages: as_messages(reply_to_command(mode, command@)),
            response: None,
        },
        AllEvent::Focus(title) => ReactionView {
            messages: as_messages(focus_report(current, title, now)),
            response: None,
        },
    }
}

/// The mode in which the listener is after what reached it.
pub open spec fn mode_after(mode: ModeView, event: AllEvent) -> ModeView {
    match event {
        AllEvent::GrabMessage(raw) => classify(mode, raw.kind).mode,
        AllEvent::Command(command) => mode_after_command(mode, command@),
        AllEvent::Focus(_) => mode,
    }
}

/// Whether a window's title is worth a report: the empty title is not.
pub fn is_window_title_ok(title: &str) -> (r: bool)
    ensures
        r == (title@.len() != 0),
{
    !title.is_empty()
}

/// The verdict on an event for which the keyboard hook has waited: the
/// listener's, where it came in time, and to deliver the event where it did
/// not.
pub fn verdict_or_pass_through(response: Option<bool>) -> (r: bool)
    ensures
        r == match response {
            Some(pass_through) => pass_through,
            None => true,
        },
{
    match response {
        Some(pass_through) => pass_through,
        None => true,
    }
}

/// The listener: its mode, and the title of the window last seen in front.
#[derive(Debug)]
pub struct State {
    pub mode: Mode,
    pub current_window_title: Option<String>,
}

impl State {
    pub fn new() -> (r: Self)
        ensures
            r.mode@ == ModeView::Disabled,
            r.current_window_title is None,
    {
        Self { mode: Mode::Disabled, current_window_title: None }
    }

    /// Takes one command. A change of mode is announced with the new mode
    /// and then made. Inputs to ignore are put before the ignore-list and
    /// acknowledged; outside grab mode they are dropped without an answer.
    pub fn handle_command(&mut self, command: Command) -> (r: Option<Message>)
        ensures
            final(self).mode@ == mode_after_command(old(self).mode@, command@),
            final(self).current_window_title == old(self).current_window_title,
            match r {
                Some(message) => Some(message@) == reply_to_command(old(self).mode@, command@),
                None => reply_to_command(old(self).mode@, command@) is None,
            },
    {
        match command {
            Command::ChangeMode(mode) => {
                let announced = mode.clone();
                self.mode = mode;
                Some(Message::ModeJustSet(announced))
            },
            Command::SetNextEventsToBeIgnoredByGrab(events) => {
                match &mut self.mode {
                    Mode::Grab { simulated_events } => {
                        let ghost before = simulated_events@;
                        let mut i: usize = events.len();
                        while i > 0
                            invariant
                                i <= events.len(),
                                simulated_events@ == events@.subrange(i as int, events.len() as int)
                                    + before,
                            decreases i,
                        {
                            i -= 1;
                            simulated_events.push_front(events[i]);
                            assert(simulated_events@ =~= events@.subrange(
                                i as int,
                                events.len() as int,
                            ) + before);
                        }
                        assert(events@.subrange(0, events.len() as int) =~= events@);
                        Some(Message::SetNextEventsToBeIgnoredByGrabDone)
                    },
                    _ => None,
                }
            },
        }
    }

    /// Takes the title of the window that has come to the front. A title
    /// other than the one last seen is remembered and reported, stamped
    /// `now`; the same title again is not.
    pub fn on_focus_event(&mut self, window_title: String, now: Timestamp) -> (r: Option<Message>)
        ensures
            final(self).mode == old(self).mode,
            is_current_title(final(self).current_window_title, window_title),
            match r {
                Some(message) => Some(message@) == focus_report(
                    old(self).current_window_title,
                    window_title,
                    now,
                ),
                None => focus_report(old(self).current_window_title, window_title, now) is None,
            },
    {
        let same = match &self.current_window_title {
            Some(title) => *title == window_title,
            None => false,
        };
        if same {
            None
        } else {
            self.current_window_title = Some(window_title.clone());
            Some(Message::Event(Event::new(now, EventKind::FocusChange { window_title })))
        }
    }

    /// One step of the listener on the platform's stream: the commands that
    /// are pending are taken first, in order, and only then is the event
    /// decided on, in the mode that they leave behind.
    pub fn on_event(&mut self, commands: Vec<Command>, event: RawEvent) -> (r: EventOutcome)
        ensures
            final(self).mode@ == classify(
                mode_after_commands(old(self).mode@, command_views(commands@)),
                event.kind,
            ).mode,
            final(self).current_window_title == old(self).current_window_title,
            r.pass_through == classify(
                mode_after_commands(old(self).mode@, command_views(commands@)),
                event.kind,
            ).pass_through,
            message_views(r.messages@) == replies_to_commands(
                old(self).mode@,
                command_views(commands@),
            ) + reports(mode_after_commands(old(self).mode@, command_views(commands@)), event),
    {
        let ghost start = self.mode@;
        let ghost all = command_views(commands@);
        let mut messages: Vec<Message> = Vec::new();
        assert(message_views(messages@) =~= replies_to_commands(start, all.take(0)));
        for command in it: commands
            invariant
                it.seq() == commands@,
                all == command_views(commands@),
                self.current_window_title == old(self).current_window_title,
                self.mode@ == mode_after_commands(start, all.take(it.index() as int)),
                message_views(messages@) == replies_to_commands(start, all.take(it.index() as int)),
        {
            let ghost done = all.take(it.index() as int);
            let ghost next = all.take(it.index() + 1);
            assert(next.drop_last() =~= done);
            assert(next.last() == command@);
            let ghost replies = message_views(messages@);
            match self.handle_command(command) {
                Some(message) => {
                    messages.push(message);
                    assert(message_views(messages@) =~= replies.push(message@));
                },
                None => {},
            }
        }
        assert(all.take(all.len() as int) =~= all);
        let ghost drained = self.mode@;
        let ghost replies = message_views(messages@);
        let outcome = self.on_key_event(event);
        match outcome.message {
            Some(message) => {
                messages.push(message);
                assert(message_views(messages@) =~= replies + reports(drained, event));
            },
            None => {
                assert(message_views(messages@) =~= replies + reports(drained, event));
            },
        }
        EventOutcome { pass_through: outcome.pass_through, messages }
    }

    /// Takes what reaches the listener, whichever it is. `now` is the time
    /// at which it is taken, with which a change of focus is stamped.
    pub fn handle(&mut self, event: AllEvent, now: Timestamp) -> (r: Reaction)
        ensures
            final(self).mode@ == mode_after(old(self).mode@, event),
            match event {
                AllEvent::Focus(title) => is_current_title(
                    final(self).current_window_title,
                    title,
                ),
                _ => final(self).current_window_title == old(self).current_window_title,
            },
            message_views(r.messages@) == reaction(
                old(self).mode@,
                old(self).current_window_title,
                event,
                now,
            ).messages,
            r.response == reaction(
                old(self).mode@,
                old(self).current_window_title,
                event,
                now,
            ).response,
    {
        let mut messages: Vec<Message> = Vec::new();
        assert(message_views(messages@) =~= Seq::<MessageView>::empty());
        let mut response: Option<bool> = None;
        let message = match event {
            AllEvent::GrabMessage(raw) => {
                let outcome = self.on_key_event(raw);
                response = Some(outcome.pass_through);
                outcome.message
            },
            AllEvent::Command(command) => self.handle_command(command),
            AllEvent::Focus(window_title) => self.on_focus_event(window_title, now),
        };
        match message {
            Some(message) => {
                messages.push(message);
                assert(message_views(messages@) =~= seq![message@]);
            },
            None => {},
        }
        Reaction { messages, response }
    }

    /// Decides on one event of the platform's stream in the current mode.
    pub fn on_key_event(&mut self, event: RawEvent) -> (r: KeyOutcome)
        ensures
            final(self).mode@ == classify(old(self).mode@, event.kind).mode,
            final(self).current_window_title == old(self).current_window_title,
            r.pass_through == classify(old(self).mode@, event.kind).pass_through,
            match r.message {
                Some(message) => seq![message@] == reports(old(self).mode@, event),
                None => reports(old(self).mode@, event) == Seq::<MessageView>::empty(),
            },
    {
        let input = match event.kind {
            RawEventKind::Key(input) => input,
            _ => {
                return KeyOutcome { pass_through: true, message: None };
            },
        };
        match &mut self.mode {
            Mode::Disabled => KeyOutcome { pass_through: true, message: None },
            Mode::Listen => KeyOutcome {
                pass_through: true,
                message: Some(
                    Message::Event(Event::new(event.time, EventKind::Input(Input(input)))),
                ),
            },
            Mode::Grab { simulated_events } => {
                if simulated_events.len() > 0 && simulated_events[0] == input {
                    let ghost before = simulated_events@;
                    simulated_events.pop_front();
                    assert(simulated_events@ =~= before.drop_first());
                    KeyOutcome { pass_through: true, message: None }
                } else {
                    KeyOutcome {
                        pass_through: false,
                        message: Some(
                            Message::Event(Event::new(event.time, EventKind::Input(Input(input)))),
                        ),
                    }
                }
            },
        }
    }
}

} // verus!
