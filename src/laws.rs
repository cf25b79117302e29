use vstd::prelude::*;

use crate::broadcast::{enqueue, publish_all, publish_to};
use crate::outcome::Outcome;
use crate::state::{elapsed_seconds, shifted, Debounce, State};

verus! {

/// `n` observations of `o` in a row.
pub open spec fn repeat(o: Outcome, n: nat) -> Seq<Outcome> {
    Seq::new(n, |i: int| o)
}

/// The debouncer after the observations `os`, all made at monotonic time
/// `now_ms`, with `wall_ms` on any snapshot published.
pub open spec fn run(m: Debounce, os: Seq<Outcome>, now_ms: u64, wall_ms: u64) -> Debounce
    decreases os.len(),
{
    if os.len() == 0 {
        m
    } else {
        run(m, os.drop_last(), now_ms, wall_ms).after_record(os.last(), now_ms, wall_ms)
    }
}

proof fn lemma_repeat_drop_last(o: Outcome, n: nat)
    requires
        n > 0,
    ensures
        repeat(o, n).drop_last() == repeat(o, (n - 1) as nat),
        repeat(o, n).last() == o,
{
    assert(repeat(o, n).drop_last() =~= repeat(o, (n - 1) as nat));
}

/// A run shorter than the threshold only fills the buffer.
proof fn lemma_short_run(m: Debounce, o: Outcome, k: nat, now_ms: u64, wall_ms: u64)
    requires
        m.wf(),
        m.state == State::Ready,
        m.buffer.len() == 0,
        o.is_counted(),
        k < m.required_consecutive,
    ensures
        run(m, repeat(o, k), now_ms, wall_ms) == (Debounce { buffer: repeat(o, k), ..m }),
    decreases k,
{
    if k == 0 {
        assert(repeat(o, 0) =~= Seq::<Outcome>::empty());
        assert(m.buffer =~= Seq::<Outcome>::empty());
    } else {
        lemma_repeat_drop_last(o, k);
        lemma_short_run(m, o, (k - 1) as nat, now_ms, wall_ms);
        assert(repeat(o, (k - 1) as nat).push(o) =~= repeat(o, k));
    }
}

/// A run of fewer than the threshold's identical counted observations,
/// ended by `none`, leaves the debouncer exactly as it was: no counter
/// moves and nothing is published, at no step of the run.
pub proof fn lemma_short_run_counts_nothing(m: Debounce, o: Outcome, k: nat, now_ms: u64, wall_ms: u64)
    requires
        m.wf(),
        m.state == State::Ready,
        m.buffer.len() == 0,
        o.is_counted(),
        k < m.required_consecutive,
    ensures
        forall|j: nat| j < k ==> !(#[trigger] run(m, repeat(o, j), now_ms, wall_ms)).triggers(o),
        forall|j: nat|
            j <= k ==> (#[trigger] run(m, repeat(o, j), now_ms, wall_ms)).subscribers
                == m.subscribers,
        run(m, repeat(o, k).push(Outcome::Nothing), now_ms, wall_ms) == m,
{
    assert forall|j: nat| j <= k implies (#[trigger] run(m, repeat(o, j), now_ms, wall_ms)).subscribers
        == m.subscribers && (j < k ==> !run(m, repeat(o, j), now_ms, wall_ms).triggers(o)) by {
        lemma_short_run(m, o, j, now_ms, wall_ms);
    }
    lemma_short_run(m, o, k, now_ms, wall_ms);
    let os = repeat(o, k).push(Outcome::Nothing);
    assert(os.drop_last() =~= repeat(o, k));
    assert(m.buffer =~= Seq::<Outcome>::empty());
}

/// The debouncer right after a run of `o` reaches the threshold at
/// monotonic time `now_ms`: one more of `o`, the buffer emptied, the cooldown
/// started, and one snapshot published (none when the counter could not
/// move past `u32::MAX`).
pub open spec fn counted_event(m: Debounce, o: Outcome, now_ms: u64, wall_ms: u64) -> Debounce {
    let next = Debounce {
        state: State::Cooldown,
        buffer: Seq::empty(),
        last_event_ms: Some(now_ms),
        ..m.counted(o)
    };
    if m.counter_of(o) < u32::MAX {
        next.published(Some(o), wall_ms)
    } else {
        next
    }
}

/// Below `u32::MAX`, a counted event adds exactly one to the counter of its
/// outcome, leaves the other counters alone, and hands every subscriber
/// exactly one snapshot: the new counters with that outcome.
pub proof fn lemma_counted_event_counts_one(m: Debounce, o: Outcome, now_ms: u64, wall_ms: u64)
    requires
        o.is_counted(),
        m.counter_of(o) < u32::MAX,
    ensures
        counted_event(m, o, now_ms, wall_ms).counter_of(o) == m.counter_of(o) + 1,
        forall|p: Outcome| p != o ==> #[trigger] counted_event(m, o, now_ms, wall_ms).counter_of(p) == m.counter_of(p),
        counted_event(m, o, now_ms, wall_ms).subscribers == publish_to(
            m.subscribers,
            m.counted(o).snapshot(Some(o), wall_ms),
            m.queue_capacity,
        ),
        counted_event(m, o, now_ms, wall_ms).state == State::Cooldown,
{
}

/// Exactly the threshold's number of identical counted observations count
/// one event: the matching counter goes up by one, one snapshot is
/// published, and the state becomes `Cooldown`; no earlier observation of
/// the run triggers.
pub proof fn lemma_full_run_counts_once(m: Debounce, o: Outcome, now_ms: u64, wall_ms: u64)
    requires
        m.wf(),
        m.state == State::Ready,
        m.buffer.len() == 0,
        o.is_counted(),
        m.required_consecutive >= 1,
    ensures
        run(m, repeat(o, m.required_consecutive as nat), now_ms, wall_ms) == counted_event(
            m,
            o,
            now_ms,
            wall_ms,
        ),
        forall|j: nat|
            j + 1 < m.required_consecutive ==> !(#[trigger] run(
                m,
                repeat(o, j),
                now_ms,
                wall_ms,
            )).triggers(o),
        run(m, repeat(o, (m.required_consecutive - 1) as nat), now_ms, wall_ms).triggers(o),
        run(m, repeat(o, m.required_consecutive as nat), now_ms, wall_ms).state == State::Cooldown,
        m.counter_of(o) < u32::MAX ==> {
            let after = run(m, repeat(o, m.required_consecutive as nat), now_ms, wall_ms);
            &&& after.counter_of(o) == m.counter_of(o) + 1
            &&& forall|p: Outcome| p != o ==> #[trigger] after.counter_of(p) == m.counter_of(p)
            &&& after.subscribers == publish_to(
                m.subscribers,
                m.counted(o).snapshot(Some(o), wall_ms),
                m.queue_capacity,
            )
        },
{
    if m.counter_of(o) < u32::MAX {
        lemma_counted_event_counts_one(m, o, now_ms, wall_ms);
    }
    let n = m.required_consecutive as nat;
    assert forall|j: nat| j + 1 < m.required_consecutive implies !(#[trigger] run(
        m,
        repeat(o, j),
        now_ms,
        wall_ms,
    )).triggers(o) by {
        lemma_short_run(m, o, j, now_ms, wall_ms);
    }
    lemma_short_run(m, o, (n - 1) as nat, now_ms, wall_ms);
    lemma_repeat_drop_last(o, n);
}

/// While fewer whole seconds have passed since the counted event than the
/// cooldown lasts, no observation changes anything or reports anything,
/// whatever it is and however many there are.
pub proof fn lemma_cooldown_ignores_all(m: Debounce, os: Seq<Outcome>, now_ms: u64, wall_ms: u64)
    requires
        m.state == State::Cooldown,
        m.last_event_ms matches Some(t) && elapsed_seconds(t, now_ms) < m.cooldown_seconds,
    ensures
        run(m, os, now_ms, wall_ms) == m,
        forall|o: Outcome|
            !(#[trigger] m.record_result(o)).event_triggered && !m.record_result(o).is_first_detection,
    decreases os.len(),
{
    if os.len() > 0 {
        lemma_cooldown_ignores_all(m, os.drop_last(), now_ms, wall_ms);
    }
}

/// Once the cooldown has run out, a counted observation moves the state to
/// `WaitingForNone` without counting; further counted observations change
/// nothing; a `none` observation brings back `Ready` with an empty buffer,
/// from which a full run of the threshold counts again.
pub proof fn lemma_cooldown_then_wait_for_none(
    m: Debounce,
    o: Outcome,
    later: Seq<Outcome>,
    now_ms: u64,
    next_ms: u64,
    wall_ms: u64,
)
    requires
        m.wf(),
        m.state == State::Cooldown,
        m.cooldown_over(now_ms),
        o.is_counted(),
        forall|i: int| 0 <= i < later.len() ==> (#[trigger] later[i]).is_counted(),
        m.required_consecutive >= 1,
    ensures
        m.after_record(o, now_ms, wall_ms) == (Debounce { state: State::WaitingForNone, ..m }),
        run(m.after_record(o, now_ms, wall_ms), later, next_ms, wall_ms) == m.after_record(
            o,
            now_ms,
            wall_ms,
        ),
        m.after_record(o, now_ms, wall_ms).after_record(Outcome::Nothing, next_ms, wall_ms) == (
        Debounce { state: State::Ready, ..m }),
        run(
            Debounce { state: State::Ready, ..m },
            repeat(o, m.required_consecutive as nat),
            next_ms,
            wall_ms,
        ) == counted_event(m, o, next_ms, wall_ms),
        m.counter_of(o) < u32::MAX ==> {
            let again = run(
                Debounce { state: State::Ready, ..m },
                repeat(o, m.required_consecutive as nat),
                next_ms,
                wall_ms,
            );
            &&& again.counter_of(o) == m.counter_of(o) + 1
            &&& forall|p: Outcome| p != o ==> #[trigger] again.counter_of(p) == m.counter_of(p)
        },
{
    if m.counter_of(o) < u32::MAX {
        lemma_counted_event_counts_one(m, o, next_ms, wall_ms);
    }
    let w = m.after_record(o, now_ms, wall_ms);
    lemma_waiting_ignores_counted(w, later, next_ms, wall_ms);
    let r = Debounce { state: State::Ready, ..m };
    lemma_full_run_counts_once(r, o, next_ms, wall_ms);
    assert(counted_event(r, o, next_ms, wall_ms) == counted_event(m, o, next_ms, wall_ms));
}

proof fn lemma_waiting_ignores_counted(w: Debounce, later: Seq<Outcome>, now_ms: u64, wall_ms: u64)
    requires
        w.state == State::WaitingForNone,
        forall|i: int| 0 <= i < later.len() ==> (#[trigger] later[i]).is_counted(),
    ensures
        run(w, later, now_ms, wall_ms) == w,
    decreases later.len(),
{
    if later.len() > 0 {
        let front = later.drop_last();
        assert forall|i: int| 0 <= i < front.len() implies (#[trigger] front[i]).is_counted() by {
            assert(front[i] == later[i]);
        }
        lemma_waiting_ignores_counted(w, front, now_ms, wall_ms);
        assert(later[later.len() - 1].is_counted());
    }
}

/// An adjustment never takes a counter below zero: the result is the sum
/// held within `0..=u32::MAX`, and exactly zero when the sum is negative.
pub proof fn lemma_adjust_never_negative(v: u32, delta: i32)
    ensures
        shifted(v, delta) >= 0,
        v + delta < 0 ==> shifted(v, delta) == 0,
        0 <= v + delta <= u32::MAX ==> shifted(v, delta) == v + delta,
        v + delta > u32::MAX ==> shifted(v, delta) == u32::MAX,
{
}

/// The debouncer after each adjustment of `steps` (an outcome and a delta)
/// is applied in order.
pub open spec fn adjust_all(m: Debounce, steps: Seq<(Outcome, i32)>, wall_ms: u64) -> Debounce
    decreases steps.len(),
{
    if steps.len() == 0 {
        m
    } else {
        adjust_all(m, steps.drop_last(), wall_ms).after_adjust(
            steps.last().0,
            steps.last().1,
            wall_ms,
        )
    }
}

/// However many adjustments of any sign are applied in a row, no counter
/// goes below zero: after each step the counter it names is the previous
/// value plus the delta held within `0..=u32::MAX`, and the others keep
/// their values.
pub proof fn lemma_adjust_sequence_never_negative(m: Debounce, steps: Seq<(Outcome, i32)>, wall_ms: u64)
    ensures
        adjust_all(m, steps, wall_ms).victories >= 0,
        adjust_all(m, steps, wall_ms).defeats >= 0,
        adjust_all(m, steps, wall_ms).draws >= 0,
        steps.len() > 0 ==> {
            let before = adjust_all(m, steps.drop_last(), wall_ms);
            let after = adjust_all(m, steps, wall_ms);
            let (o, d) = steps.last();
            &&& after.victories == if o == Outcome::Victory {
                shifted(before.victories, d)
            } else {
                before.victories
            }
            &&& after.defeats == if o == Outcome::Defeat {
                shifted(before.defeats, d)
            } else {
                before.defeats
            }
            &&& after.draws == if o == Outcome::Draw {
                shifted(before.draws, d)
            } else {
                before.draws
            }
        },
    decreases steps.len(),
{
    if steps.len() > 0 {
        lemma_adjust_sequence_never_negative(m, steps.drop_last(), wall_ms);
    }
}

proof fn lemma_seed_then_messages<T>(
    slots: Seq<Option<Seq<T>>>,
    id: int,
    seed: T,
    ms: Seq<T>,
    capacity: nat,
)
    requires
        0 <= id < slots.len(),
        slots[id] == Some(seq![seed]),
        ms.len() < capacity,
    ensures
        publish_all(slots, ms, capacity).len() == slots.len(),
        publish_all(slots, ms, capacity)[id] == Some(seq![seed] + ms),
    decreases ms.len(),
{
    if ms.len() == 0 {
        assert(seq![seed] + ms =~= seq![seed]);
    } else {
        let front = ms.drop_last();
        lemma_seed_then_messages(slots, id, seed, front, capacity);
        let before = publish_all(slots, front, capacity);
        assert((seq![seed] + front).len() < capacity);
        assert(enqueue(seq![seed] + front, ms.last(), capacity) =~= seq![seed] + ms);
        assert(publish_to(before, ms.last(), capacity)[id] == Some(
            enqueue(seq![seed] + front, ms.last(), capacity),
        ));
    }
}

/// A subscriber that joins at some point first finds in its queue one
/// snapshot of the counters as they stand then, which reflects everything
/// applied before; after that it finds exactly the snapshots published
/// later, in order, with nothing earlier replayed and the seed not repeated
/// (as long as its queue has not overflowed).
pub proof fn lemma_late_subscriber_sees_seed_then_live(
    m: Debounce,
    id: int,
    wall_ms: u64,
    live: Seq<crate::state::CounterUpdate>,
)
    requires
        m.wf(),
        0 <= id <= m.subscribers.len(),
        id < m.subscribers.len() ==> m.subscribers[id] is None,
        live.len() < m.queue_capacity,
    ensures
        publish_all(m.subscribed(id, m.snapshot(None, wall_ms)).subscribers, live, m.queue_capacity)[id]
            == Some(seq![m.snapshot(None, wall_ms)] + live),
        m.snapshot(None, wall_ms).victories == m.victories,
        m.snapshot(None, wall_ms).defeats == m.defeats,
        m.snapshot(None, wall_ms).draws == m.draws,
{
    let s = m.subscribed(id, m.snapshot(None, wall_ms)).subscribers;
    assert(s[id] == Some(seq![m.snapshot(None, wall_ms)]));
    lemma_seed_then_messages(s, id, m.snapshot(None, wall_ms), live, m.queue_capacity);
}

} // verus!
