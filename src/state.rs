use vstd::prelude::*;

use std::time::Instant;

use crate::broadcast::{publish_to, Broadcaster};
use crate::clock::{millis_since, monotonic_now, unix_millis};
use crate::outcome::{outcome_of, Outcome};

verus! {

/// How many snapshots a subscriber's queue holds before the oldest leaves.
pub const SUBSCRIBER_QUEUE_CAPACITY: usize = 100;

/// Where the debounce cycle stands.
#[derive(Clone, Copy, Debug, PartialEq, Eq, Structural)]
pub enum State {
    /// Collecting a run of counted observations.
    Ready,
    /// An event was just counted; observations are ignored until the
    /// cooldown has run out.
    Cooldown,
    /// The cooldown is over but the result is still on display; waiting for
    /// a `none` observation.
    WaitingForNone,
}

/// What one observation did.
#[derive(Clone, Copy, Debug, PartialEq, Eq, Structural)]
pub struct DetectionResult {
    /// The observation completed a run and a counter went up.
    pub event_triggered: bool,
    /// The observation opened a new run.
    pub is_first_detection: bool,
}

/// A read of the counters, as handed to subscribers and to queries.
#[derive(Clone, Copy, Debug, PartialEq, Eq)]
pub struct CounterUpdate {
    pub victories: u32,
    pub defeats: u32,
    pub draws: u32,
    /// The outcome that the change was about, if any.
    pub last_outcome: Option<Outcome>,
    /// Wall-clock time of the read, in milliseconds since the Unix epoch.
    pub timestamp_ms: u64,
}

/// Whole seconds from `since` to `now` on the monotonic clock (0 when `now`
/// is not later).
pub open spec fn elapsed_seconds(since: u64, now: u64) -> int {
    if now >= since {
        (now - since) / 1000
    } else {
        0
    }
}

/// `v + 1`, held at `u32::MAX`.
pub open spec fn bumped(v: u32) -> u32 {
    if v < u32::MAX {
        (v + 1) as u32
    } else {
        v
    }
}

/// `v + delta`, held within `0..=u32::MAX`.
pub open spec fn shifted(v: u32, delta: i32) -> u32 {
    let s = v + delta;
    if s < 0 {
        0
    } else if s > u32::MAX {
        u32::MAX
    } else {
        s as u32
    }
}

/// The debouncer as plain values.
pub struct Debounce {
    pub state: State,
    pub victories: u32,
    pub defeats: u32,
    pub draws: u32,
    /// The run of counted observations collected while `Ready`.
    pub buffer: Seq<Outcome>,
    /// Monotonic time of the last counted event, in milliseconds.
    pub last_event_ms: Option<u64>,
    pub cooldown_seconds: u64,
    pub required_consecutive: usize,
    /// Each subscriber slot's queue; `None` for an empty slot.
    pub subscribers: Seq<Option<Seq<CounterUpdate>>>,
    pub queue_capacity: nat,
}

impl Debounce {
    pub open spec fn wf(self) -> bool {
        &&& (self.buffer.len() < self.required_consecutive || self.buffer.len() == 0)
        &&& (self.state != State::Ready ==> self.buffer.len() == 0)
        &&& (self.state == State::Cooldown ==> self.last_event_ms is Some)
        &&& self.queue_capacity >= 1
        &&& forall|i: int|
            0 <= i < self.subscribers.len() && (#[trigger] self.subscribers[i]) is Some
                ==> self.subscribers[i]->0.len() <= self.queue_capacity
    }

    /// The debouncer that `StateManager::new` makes.
    pub open spec fn initial(cooldown_seconds: u64, required_consecutive: usize) -> Debounce {
        Debounce {
            state: State::Ready,
            victories: 0,
            defeats: 0,
            draws: 0,
            buffer: Seq::empty(),
            last_event_ms: None,
            cooldown_seconds,
            required_consecutive,
            subscribers: Seq::empty(),
            queue_capacity: SUBSCRIBER_QUEUE_CAPACITY as nat,
        }
    }

    pub open spec fn snapshot(self, last_outcome: Option<Outcome>, timestamp_ms: u64) -> CounterUpdate {
        CounterUpdate {
            victories: self.victories,
            defeats: self.defeats,
            draws: self.draws,
            last_outcome,
            timestamp_ms,
        }
    }

    /// Every subscriber's queue takes the snapshot.
    pub open spec fn published(self, last_outcome: Option<Outcome>, timestamp_ms: u64) -> Debounce {
        Debounce {
            subscribers: publish_to(
                self.subscribers,
                self.snapshot(last_outcome, timestamp_ms),
                self.queue_capacity,
            ),
            ..self
        }
    }

    /// The counter of `o` goes up by one (none for `Nothing`).
    pub open spec fn counted(self, o: Outcome) -> Debounce {
        match o {
            Outcome::Victory => Debounce { victories: bumped(self.victories), ..self },
            Outcome::Defeat => Debounce { defeats: bumped(self.defeats), ..self },
            Outcome::Draw => Debounce { draws: bumped(self.draws), ..self },
            Outcome::Nothing => self,
        }
    }

    /// The value of the counter that `o` names (0 for `Nothing`).
    pub open spec fn counter_of(self, o: Outcome) -> u32 {
        match o {
            Outcome::Victory => self.victories,
            Outcome::Defeat => self.defeats,
            Outcome::Draw => self.draws,
            Outcome::Nothing => 0,
        }
    }

    pub open spec fn cooldown_over(self, now_ms: u64) -> bool {
        match self.last_event_ms {
            Some(t) => elapsed_seconds(t, now_ms) >= self.cooldown_seconds,
            None => false,
        }
    }

    /// Whether observing `o` now completes a run.
    pub open spec fn triggers(self, o: Outcome) -> bool {
        &&& self.state == State::Ready
        &&& o.is_counted()
        &&& self.buffer.len() + 1 >= self.required_consecutive
    }

    /// What observing `o` reports.
    pub open spec fn record_result(self, o: Outcome) -> DetectionResult {
        DetectionResult {
            event_triggered: self.triggers(o),
            is_first_detection: self.state == State::Ready && o.is_counted() && self.buffer.len()
                == 0,
        }
    }

    /// The debouncer after observing `o` at monotonic time `now_ms`, with
    /// `wall_ms` as the time stamp of any snapshot it publishes. A snapshot
    /// is published exactly when a counter changes, so a completed run whose
    /// counter already stands at `u32::MAX` publishes nothing.
    pub open spec fn after_record(self, o: Outcome, now_ms: u64, wall_ms: u64) -> Debounce {
        match self.state {
            State::Ready => {
                if !o.is_counted() {
                    Debounce { buffer: Seq::empty(), ..self }
                } else if self.triggers(o) {
                    let next = Debounce {
                        state: State::Cooldown,
                        buffer: Seq::empty(),
                        last_event_ms: Some(now_ms),
                        ..self.counted(o)
                    };
                    if self.counter_of(o) < u32::MAX {
                        next.published(Some(o), wall_ms)
                    } else {
                        next
                    }
                } else {
                    Debounce { buffer: self.buffer.push(o), ..self }
                }
            },
            State::Cooldown => {
                if !self.cooldown_over(now_ms) {
                    self
                } else if o.is_counted() {
                    Debounce { state: State::WaitingForNone, ..self }
                } else {
                    Debounce { state: State::Ready, ..self }
                }
            },
            State::WaitingForNone => {
                if o.is_counted() {
                    self
                } else {
                    Debounce { state: State::Ready, ..self }
                }
            },
        }
    }

    /// The counters set to the given totals, then published.
    pub open spec fn after_initialize(self, victories: u32, defeats: u32, draws: u32, wall_ms: u64) -> Debounce {
        Debounce { victories, defeats, draws, ..self }.published(None, wall_ms)
    }

    /// The counter of `o` moved by `delta`, then published with `o`.
    pub open spec fn after_adjust(self, o: Outcome, delta: i32, wall_ms: u64) -> Debounce {
        let moved = match o {
            Outcome::Victory => Debounce { victories: shifted(self.victories, delta), ..self },
            Outcome::Defeat => Debounce { defeats: shifted(self.defeats, delta), ..self },
            Outcome::Draw => Debounce { draws: shifted(self.draws, delta), ..self },
            Outcome::Nothing => self,
        };
        moved.published(Some(o), wall_ms)
    }

    /// The same debouncer with other subscriber queues.
    pub open spec fn with_subscribers(self, subscribers: Seq<Option<Seq<CounterUpdate>>>) -> Debounce {
        Debounce { subscribers, ..self }
    }

    /// The debouncer after a subscriber takes slot `id` with `seed`.
    pub open spec fn subscribed(self, id: int, seed: CounterUpdate) -> Debounce {
        Debounce { subscribers: crate::broadcast::open_slot(self.subscribers, id, seed), ..self }
    }
}

/// The event debouncer and its subscribers, as one owned unit: it turns a
/// stream of per-tick labels into counted events and hands every change of
/// the counters to each subscriber's queue.
pub struct StateManager {
    state: State,
    victories: u32,
    defeats: u32,
    draws: u32,
    cooldown_seconds: u64,
    required_consecutive: usize,
    consecutive_detections: Vec<Outcome>,
    last_event_ms: Option<u64>,
    broadcaster: Broadcaster<CounterUpdate>,
    origin: Instant,
}

impl View for StateManager {
    type V = Debounce;

    closed spec fn view(&self) -> Debounce {
        Debounce {
            state: self.state,
            victories: self.victories,
            defeats: self.defeats,
            draws: self.draws,
            buffer: self.consecutive_detections@,
            last_event_ms: self.last_event_ms,
            cooldown_seconds: self.cooldown_seconds,
            required_consecutive: self.required_consecutive,
            subscribers: self.broadcaster.slots(),
            queue_capacity: self.broadcaster.capacity(),
        }
    }
}

impl StateManager {
    pub open spec fn wf(&self) -> bool {
        self@.wf()
    }

    /// A debouncer in `Ready` with all counters at zero and no subscribers.
    pub fn new(cooldown_seconds: u64, required_consecutive: usize) -> (r: Self)
        ensures
            r.wf(),
            r@ == Debounce::initial(cooldown_seconds, required_consecutive),
    {
        let r = StateManager {
            state: State::Ready,
            victories: 0,
            defeats: 0,
            draws: 0,
            cooldown_seconds,
            required_consecutive,
            consecutive_detections: Vec::new(),
            last_event_ms: None,
            broadcaster: Broadcaster::new(SUBSCRIBER_QUEUE_CAPACITY),
            origin: monotonic_now(),
        };
        assert(r@.buffer =~= Seq::<Outcome>::empty());
        r
    }

    /// Where the debounce cycle stands.
    pub fn state(&self) -> (r: State)
        ensures
            r == self@.state,
    {
        self.state
    }

    fn snapshot(&self, last_outcome: Option<Outcome>, timestamp_ms: u64) -> (r: CounterUpdate)
        ensures
            r == self@.snapshot(last_outcome, timestamp_ms),
    {
        CounterUpdate {
            victories: self.victories,
            defeats: self.defeats,
            draws: self.draws,
            last_outcome,
            timestamp_ms,
        }
    }

    fn broadcast_update(&mut self, last_outcome: Option<Outcome>, timestamp_ms: u64)
        requires
            old(self).wf(),
        ensures
            final(self).wf(),
            final(self)@ == old(self)@.published(last_outcome, timestamp_ms),
    {
        let update = self.snapshot(last_outcome, timestamp_ms);
        self.broadcaster.publish(update);
    }

    /// Adds one to the counter of `o` unless it stands at `u32::MAX`; an
    /// outcome that names no counter changes nothing. Tells whether a counter
    /// changed.
    fn increment_counter(&mut self, o: Outcome) -> (changed: bool)
        ensures
            final(self)@ == old(self)@.counted(o),
            changed == (o.is_counted() && old(self)@.counter_of(o) < u32::MAX),
    {
        match o {
            Outcome::Victory => {
                let changed = self.victories < u32::MAX;
                self.victories = self.victories.saturating_add(1);
                changed
            },
            Outcome::Defeat => {
                let changed = self.defeats < u32::MAX;
                self.defeats = self.defeats.saturating_add(1);
                changed
            },
            Outcome::Draw => {
                let changed = self.draws < u32::MAX;
                self.draws = self.draws.saturating_add(1);
                changed
            },
            Outcome::Nothing => false,
        }
    }

    /// Applies one observation, read at monotonic time `now_ms`; a snapshot
    /// that it publishes carries `wall_ms`.
    pub fn record_detection_at(&mut self, outcome: &str, now_ms: u64, wall_ms: u64) -> (r:
        DetectionResult)
        requires
            old(self).wf(),
        ensures
            final(self).wf(),
            r == old(self)@.record_result(outcome_of(outcome@)),
            final(self)@ == old(self)@.after_record(outcome_of(outcome@), now_ms, wall_ms),
    {
        let o = Outcome::from_label(outcome);
        let counted = match o {
            Outcome::Nothing => false,
            _ => true,
        };
        let mut result = DetectionResult { event_triggered: false, is_first_detection: false };
        match self.state {
            State::Ready => {
                if counted {
                    self.consecutive_detections.push(o);
                    if self.consecutive_detections.len() == 1 {
                        result.is_first_detection = true;
                    }
                    if self.consecutive_detections.len() >= self.required_consecutive {
                        let changed = self.increment_counter(o);
                        self.state = State::Cooldown;
                        self.last_event_ms = Some(now_ms);
                        self.consecutive_detections.clear();
                        if changed {
                            self.broadcast_update(Some(o), wall_ms);
                        }
                        result.event_triggered = true;
                    }
                } else {
                    self.consecutive_detections.clear();
                }
            },
            State::Cooldown => {
                match self.last_event_ms {
                    Some(t) => {
                        let secs: u64 = if now_ms >= t {
                            (now_ms - t) / 1000
                        } else {
                            0
                        };
                        if secs >= self.cooldown_seconds {
                            if counted {
                                self.state = State::WaitingForNone;
                            } else {
                                self.state = State::Ready;
                            }
                        }
                    },
                    None => {},
                }
            },
            State::WaitingForNone => {
                if !counted {
                    self.state = State::Ready;
                }
            },
        }
        result
    }

    /// Applies one observation at the present time.
    pub fn record_detection(&mut self, outcome: &str) -> (r: DetectionResult)
        requires
            old(self).wf(),
        ensures
            final(self).wf(),
            r == old(self)@.record_result(outcome_of(outcome@)),
            exists|now_ms: u64, wall_ms: u64|
                final(self)@ == old(self)@.after_record(outcome_of(outcome@), now_ms, wall_ms),
    {
        let now_ms = millis_since(&self.origin);
        let wall_ms = unix_millis();
        self.record_detection_at(outcome, now_ms, wall_ms)
    }

    /// Sets the counters to the given totals and publishes them; the debounce
    /// cycle is left as it is.
    pub fn initialize(&mut self, victories: u32, defeats: u32, draws: u32)
        requires
            old(self).wf(),
        ensures
            final(self).wf(),
            exists|wall_ms: u64|
                final(self)@ == old(self)@.after_initialize(victories, defeats, draws, wall_ms),
    {
        self.victories = victories;
        self.defeats = defeats;
        self.draws = draws;
        let wall_ms = unix_millis();
        self.broadcast_update(None, wall_ms);
        assert(self@ == old(self)@.after_initialize(victories, defeats, draws, wall_ms));
    }

    /// Moves the counter that `outcome` names by `delta`, never below zero,
    /// and publishes the counters; an unknown name moves nothing.
    pub fn adjust(&mut self, outcome: &str, delta: i32)
        requires
            old(self).wf(),
        ensures
            final(self).wf(),
            exists|wall_ms: u64|
                final(self)@ == old(self)@.after_adjust(outcome_of(outcome@), delta, wall_ms),
    {
        let o = Outcome::from_label(outcome);
        match o {
            Outcome::Victory => self.victories = shift(self.victories, delta),
            Outcome::Defeat => self.defeats = shift(self.defeats, delta),
            Outcome::Draw => self.draws = shift(self.draws, delta),
            Outcome::Nothing => {},
        }
        let wall_ms = unix_millis();
        self.broadcast_update(Some(o), wall_ms);
        assert(self@ == old(self)@.after_adjust(o, delta, wall_ms));
    }

    /// The counters now; publishes nothing.
    pub fn summary(&self) -> (r: CounterUpdate)
        ensures
            r == self@.snapshot(None, r.timestamp_ms),
    {
        let wall_ms = unix_millis();
        self.snapshot(None, wall_ms)
    }

    /// Adds a subscriber whose queue starts with the counters now, and
    /// returns its slot; `None` only when no slot can be added.
    pub fn subscribe(&mut self) -> (r: Option<usize>)
        requires
            old(self).wf(),
        ensures
            final(self).wf(),
            old(self)@.subscribers.len() < usize::MAX <==> r is Some,
            r is None ==> final(self)@ == old(self)@,
            r matches Some(id) ==> {
                &&& id <= old(self)@.subscribers.len()
                &&& id < old(self)@.subscribers.len() ==> old(self)@.subscribers[id as int] is None
                &&& exists|wall_ms: u64|
                    final(self)@ == old(self)@.subscribed(
                        id as int,
                        old(self)@.snapshot(None, wall_ms),
                    )
            },
    {
        if self.broadcaster.slot_count() == usize::MAX {
            return None;
        }
        let seed = self.summary();
        let id = self.broadcaster.subscribe(seed);
        Some(id)
    }

    /// Takes what subscriber `id` has been sent since it last looked, oldest
    /// first; `None` when `id` is no open subscriber.
    pub fn receive(&mut self, id: usize) -> (r: Option<Vec<CounterUpdate>>)
        requires
            old(self).wf(),
        ensures
            final(self).wf(),
            id < old(self)@.subscribers.len() && old(self)@.subscribers[id as int] is Some ==> {
                &&& r is Some
                &&& r->0@ == old(self)@.subscribers[id as int]->0
                &&& final(self)@ == old(self)@.with_subscribers(
                    old(self)@.subscribers.update(id as int, Some(Seq::<CounterUpdate>::empty())),
                )
            },
            !(id < old(self)@.subscribers.len() && old(self)@.subscribers[id as int] is Some)
                ==> r is None && final(self)@ == old(self)@,
    {
        self.broadcaster.drain(id)
    }

    /// Closes subscriber `id`'s slot.
    pub fn unsubscribe(&mut self, id: usize)
        requires
            old(self).wf(),
        ensures
            final(self).wf(),
            id < old(self)@.subscribers.len() ==> final(self)@ == old(self)@.with_subscribers(
                old(self)@.subscribers.update(id as int, None),
            ),
            id >= old(self)@.subscribers.len() ==> final(self)@ == old(self)@,
    {
        self.broadcaster.unsubscribe(id);
    }
}

/// `v + delta`, held within `0..=u32::MAX`.
pub fn shift(v: u32, delta: i32) -> (r: u32)
    ensures
        r == shifted(v, delta),
{
    let s: i64 = v as i64 + delta as i64;
    if s < 0 {
        0
    } else if s > u32::MAX as i64 {
        u32::MAX
    } else {
        s as u32
    }
}

} // verus!
