//! The inputs that the user makes while a macro plays, kept in order of time.

use crate::event::InputEvent;
use crate::time::Timestamp;
use std::cmp::Ordering;
use vstd::prelude::*;
use vstd::std_specs::cmp::{PartialEqSpecImpl, PartialOrdSpecImpl};

verus! {

/// An input that the user made while the player was at work, with the time
/// at which it came.
#[derive(Clone, Copy, Debug)]
pub struct MissedEvent {
    pub event: InputEvent,
    pub time: Timestamp,
}

/// Two missed events are equal where they came at the same time, whatever
/// their inputs.
impl PartialEq for MissedEvent {
    fn eq(&self, other: &Self) -> (r: bool) {
        self.time.nanos == other.time.nanos
    }
}

impl PartialEqSpecImpl for MissedEvent {
    open spec fn obeys_eq_spec() -> bool {
        true
    }

    open spec fn eq_spec(&self, other: &Self) -> bool {
        self.time.nanos == other.time.nanos
    }
}

impl Eq for MissedEvent {

}

/// Missed events are ordered by the times at which they came.
impl PartialOrd for MissedEvent {
    fn partial_cmp(&self, other: &Self) -> (r: Option<Ordering>) {
        if self.time.nanos < other.time.nanos {
            Some(Ordering::Less)
        } else if self.time.nanos == other.time.nanos {
            Some(Ordering::Equal)
        } else {
            Some(Ordering::Greater)
        }
    }
}

impl PartialOrdSpecImpl for MissedEvent {
    open spec fn obeys_partial_cmp_spec() -> bool {
        true
    }

    open spec fn partial_cmp_spec(&self, other: &Self) -> Option<Ordering> {
        if self.time.nanos < other.time.nanos {
            Some(Ordering::Less)
        } else if self.time.nanos == other.time.nanos {
            Some(Ordering::Equal)
        } else {
            Some(Ordering::Greater)
        }
    }
}

/// Whether each element of `s` came before the one after it.
pub open spec fn ascending_by_time(s: Seq<MissedEvent>) -> bool {
    forall|i: int, j: int| 0 <= i < j < s.len() ==> s[i].time.nanos < s[j].time.nanos
}

/// Whether `s` holds an event that came at `time`.
pub open spec fn holds_time(s: Seq<MissedEvent>, time: Timestamp) -> bool {
    exists|i: int| 0 <= i < s.len() && s[i].time == time
}

/// Whether `time` lies in the window that begins at `start` and ends before
/// `end`.
pub open spec fn in_window(time: Timestamp, start: Timestamp, end: Timestamp) -> bool {
    start.nanos <= time.nanos < end.nanos
}

/// The test for an event that came in the window from `start` up to `end`.
pub open spec fn came_in(start: Timestamp, end: Timestamp) -> spec_fn(MissedEvent) -> bool {
    |m: MissedEvent| in_window(m.time, start, end)
}

/// The test for an event that came before `time`.
pub open spec fn came_before(time: Timestamp) -> spec_fn(MissedEvent) -> bool {
    |m: MissedEvent| m.time.nanos < time.nanos
}

/// The test for an event that came after `time`.
pub open spec fn came_after(time: Timestamp) -> spec_fn(MissedEvent) -> bool {
    |m: MissedEvent| m.time.nanos > time.nanos
}

/// The events of `s` that came in the window from `start` up to `end`, the
/// end left out, in the order of `s`.
pub open spec fn window(s: Seq<MissedEvent>, start: Timestamp, end: Timestamp) -> Seq<
    MissedEvent,
> {
    s.filter(came_in(start, end))
}

/// The events of `s` that came after `time`, in the order of `s`.
pub open spec fn later_than(s: Seq<MissedEvent>, time: Timestamp) -> Seq<MissedEvent> {
    s.filter(came_after(time))
}

/// The inputs of a run of missed events.
pub open spec fn inputs_of_missed(s: Seq<MissedEvent>) -> Seq<InputEvent> {
    s.map_values(|m: MissedEvent| m.event)
}

/// What `insert` makes of `s`: `s` itself where it holds an event of the
/// same time already, and else `s` with `missed` put in at its place in time.
pub open spec fn with_missed(s: Seq<MissedEvent>, missed: MissedEvent) -> Seq<MissedEvent> {
    if holds_time(s, missed.time) {
        s
    } else {
        s.filter(came_before(missed.time)).push(missed) + s.filter(came_after(missed.time))
    }
}

/// A part of a sequence that `filter` picks is in the order of the sequence:
/// what was ascending stays ascending.
pub proof fn lemma_filter_keeps_ascending(s: Seq<MissedEvent>, pred: spec_fn(MissedEvent) -> bool)
    requires
        ascending_by_time(s),
    ensures
        ascending_by_time(s.filter(pred)),
        forall|i: int| 0 <= i < s.filter(pred).len() ==> s.contains(#[trigger] s.filter(pred)[i]),
    decreases s.len(),
{
    reveal(Seq::filter);
    if s.len() > 0 {
        let head = s.drop_last();
        lemma_filter_keeps_ascending(head, pred);
        let kept = head.filter(pred);
        assert forall|i: int| 0 <= i < s.filter(pred).len() implies s.contains(
            #[trigger] s.filter(pred)[i],
        ) by {
            if i < kept.len() {
                assert(head.contains(kept[i]));
                let k = choose|k: int| 0 <= k < head.len() && head[k] == kept[i];
                assert(s[k] == kept[i]);
            } else {
                assert(s[s.len() - 1] == s.filter(pred)[i]);
            }
        }
        if pred(s.last()) {
            assert forall|i: int, j: int| 0 <= i < j < kept.len() + 1 implies kept.push(
                s.last(),
            )[i].time.nanos < kept.push(s.last())[j].time.nanos by {
                if j == kept.len() {
                    assert(head.contains(kept[i]));
                    let k = choose|k: int| 0 <= k < head.len() && head[k] == kept[i];
                    assert(s[k] == kept[i]);
                }
            }
        }
    }
}

/// The events replayed after a yield window come in strictly ascending order
/// of time, and each of them came inside the window.
pub proof fn lemma_window_ascending(s: Seq<MissedEvent>, start: Timestamp, end: Timestamp)
    requires
        ascending_by_time(s),
    ensures
        ascending_by_time(window(s, start, end)),
        forall|i: int|
            0 <= i < window(s, start, end).len() ==> in_window(
                (#[trigger] window(s, start, end)[i]).time,
                start,
                end,
            ),
{
    let pred = came_in(start, end);
    lemma_filter_keeps_ascending(s, pred);
    assert forall|i: int| 0 <= i < window(s, start, end).len() implies in_window(
        (#[trigger] window(s, start, end)[i]).time,
        start,
        end,
    ) by {
        s.lemma_filter_pred(pred, i);
    }
}

/// A sequence of which every element passes a test is its own filter.
pub proof fn lemma_filter_all(s: Seq<MissedEvent>, pred: spec_fn(MissedEvent) -> bool)
    requires
        forall|i: int| 0 <= i < s.len() ==> pred(#[trigger] s[i]),
    ensures
        s.filter(pred) == s,
    decreases s.len(),
{
    reveal(Seq::filter);
    if s.len() > 0 {
        lemma_filter_all(s.drop_last(), pred);
        assert(s.drop_last().push(s.last()) =~= s);
    }
}

/// Of a sequence of which no element passes a test the filter is empty.
pub proof fn lemma_filter_none(s: Seq<MissedEvent>, pred: spec_fn(MissedEvent) -> bool)
    requires
        forall|i: int| 0 <= i < s.len() ==> !pred(#[trigger] s[i]),
    ensures
        s.filter(pred) == Seq::<MissedEvent>::empty(),
    decreases s.len(),
{
    reveal(Seq::filter);
    if s.len() > 0 {
        lemma_filter_none(s.drop_last(), pred);
    }
}

/// The filter of a sequence grown by one element.
pub proof fn lemma_filter_push(
    s: Seq<MissedEvent>,
    last: MissedEvent,
    pred: spec_fn(MissedEvent) -> bool,
)
    ensures
        s.push(last).filter(pred) == if pred(last) {
            s.filter(pred).push(last)
        } else {
            s.filter(pred)
        },
{
    reveal(Seq::filter);
    assert(s.push(last).drop_last() =~= s);
}

/// The missed events that the player holds: a set ordered by time, in which
/// no two events have the same time.
#[derive(Debug)]
pub struct MissedEvents {
    events: Vec<MissedEvent>,
}

impl View for MissedEvents {
    type V = Seq<MissedEvent>;

    closed spec fn view(&self) -> Seq<MissedEvent> {
        self.events@
    }
}

impl MissedEvents {
    #[verifier::type_invariant]
    spec fn ordered(self) -> bool {
        ascending_by_time(self.events@)
    }

    pub fn new() -> (r: Self)
        ensures
            r@ == Seq::<MissedEvent>::empty(),
    {
        MissedEvents { events: Vec::new() }
    }

    /// The events in ascending order of time.
    pub fn to_vec(&self) -> (r: Vec<MissedEvent>)
        ensures
            r@ == self@,
            ascending_by_time(r@),
    {
        proof {
            use_type_invariant(self);
        }
        let r = self.events.clone();
        assert(r@ =~= self.events@);
        r
    }

    /// Takes `missed` into the set, at its place in time, unless the set
    /// holds an event of the same time already: then the set stays as it is.
    /// Says whether the event was taken in.
    pub fn insert(&mut self, missed: MissedEvent) -> (r: bool)
        ensures
            r == !holds_time(old(self)@, missed.time),
            final(self)@ == with_missed(old(self)@, missed),
            ascending_by_time(final(self)@),
    {
        proof {
            use_type_invariant(&*self);
        }
        let ghost before = self.events@;
        let n = self.events.len();
        let mut at: usize = 0;
        while at < n && self.events[at].time.nanos < missed.time.nanos
            invariant
                n == self.events.len(),
                at <= n,
                self.events@ == before,
                forall|k: int| 0 <= k < at ==> before[k].time.nanos < missed.time.nanos,
            decreases n - at,
        {
            at += 1;
        }
        if at < n && self.events[at].time.nanos == missed.time.nanos {
            assert(before[at as int].time == missed.time);
            false
        } else {
            assert(!holds_time(before, missed.time)) by {
                if holds_time(before, missed.time) {
                    let k = choose|k: int| 0 <= k < before.len() && before[k].time == missed.time;
                    if k > at {
                        assert(before[at as int].time.nanos < before[k].time.nanos);
                    }
                }
            }
            let mut events = self.events.clone();
            assert(events@ =~= before);
            events.insert(at, missed);
            proof {
                let head = before.take(at as int);
                let tail = before.skip(at as int);
                assert(head + tail =~= before);
                assert forall|k: int| 0 <= k < tail.len() implies tail[k].time.nanos
                    > missed.time.nanos by {
                    assert(tail[k] == before[at + k]);
                    if k > 0 {
                        assert(before[at as int].time.nanos < before[at + k].time.nanos);
                    }
                }
                let below = came_before(missed.time);
                let above = came_after(missed.time);
                Seq::filter_distributes_over_add(head, tail, below);
                Seq::filter_distributes_over_add(head, tail, above);
                lemma_filter_all(head, below);
                lemma_filter_none(tail, below);
                lemma_filter_none(head, above);
                lemma_filter_all(tail, above);
                assert(before.filter(below) =~= head);
                assert(before.filter(above) =~= tail);
                assert(events@ =~= head.push(missed) + tail);
                assert forall|i: int, j: int| 0 <= i < j < events@.len() implies events@[i].time.nanos
                    < events@[j].time.nanos by {
                    if i < at {
                        assert(events@[i] == before[i]);
                    } else if i > at {
                        assert(events@[i] == before[i - 1]);
                    }
                    if j < at {
                        assert(events@[j] == before[j]);
                    } else if j > at {
                        assert(events@[j] == before[j - 1]);
                        assert(events@[j] == tail[j - 1 - at]);
                    }
                }
            }
            self.events = events;
            true
        }
    }

    /// The inputs of the events that came in the window from `start` up to
    /// `end`, the end left out, in ascending order of time.
    pub fn inputs_in_window(&self, start: Timestamp, end: Timestamp) -> (r: Vec<InputEvent>)
        ensures
            r@ == inputs_of_missed(window(self@, start, end)),
    {
        let mut inputs: Vec<InputEvent> = Vec::new();
        let mut i: usize = 0;
        assert(self.events@.take(0) =~= Seq::<MissedEvent>::empty());
        proof {
            lemma_filter_none(self.events@.take(0), came_in(start, end));
        }
        while i < self.events.len()
            invariant
                i <= self.events.len(),
                inputs@ == inputs_of_missed(window(self.events@.take(i as int), start, end)),
            decreases self.events.len() - i,
        {
            let missed = self.events[i];
            proof {
                lemma_filter_push(self.events@.take(i as int), missed, came_in(start, end));
                assert(self.events@.take(i as int).push(missed) =~= self.events@.take(i + 1));
            }
            if start.nanos <= missed.time.nanos && missed.time.nanos < end.nanos {
                inputs.push(missed.event);
                assert(inputs@ =~= inputs_of_missed(
                    window(self.events@.take(i + 1), start, end),
                ));
            }
            i += 1;
        }
        assert(self.events@.take(self.events@.len() as int) =~= self.events@);
        inputs
    }

    /// Drops every event that did not come after `time`.
    pub fn retain_later_than(&mut self, time: Timestamp)
        ensures
            final(self)@ == later_than(old(self)@, time),
            ascending_by_time(final(self)@),
    {
        proof {
            use_type_invariant(&*self);
        }
        let mut kept: Vec<MissedEvent> = Vec::new();
        let mut i: usize = 0;
        assert(self.events@.take(0) =~= Seq::<MissedEvent>::empty());
        proof {
            lemma_filter_none(self.events@.take(0), came_after(time));
        }
        while i < self.events.len()
            invariant
                i <= self.events.len(),
                kept@ == later_than(self.events@.take(i as int), time),
            decreases self.events.len() - i,
        {
            let missed = self.events[i];
            proof {
                lemma_filter_push(self.events@.take(i as int), missed, came_after(time));
                assert(self.events@.take(i as int).push(missed) =~= self.events@.take(i + 1));
            }
            if missed.time.nanos > time.nanos {
                kept.push(missed);
            }
            i += 1;
        }
        proof {
            assert(self.events@.take(self.events@.len() as int) =~= self.events@);
            lemma_filter_keeps_ascending(self.events@, came_after(time));
        }
        self.events = kept;
    }

    pub fn len(&self) -> (r: usize)
        ensures
            r == self@.len(),
            ascending_by_time(self@),
    {
        proof {
            use_type_invariant(self);
        }
        self.events.len()
    }
}

} // verus!
