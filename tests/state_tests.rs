use ow2_victory_counter::broadcast::Broadcaster;
use ow2_victory_counter::detection::{after_classification, remaining_sleep_ms, wants_screenshot};
use ow2_victory_counter::outcome::Outcome;
use ow2_victory_counter::state::{shift, DetectionResult, State, StateManager};

fn counts(m: &StateManager) -> (u32, u32, u32) {
    let s = m.summary();
    (s.victories, s.defeats, s.draws)
}

#[test]
fn scenario_threshold_three_cooldown_ten_seconds() {
    let mut m = StateManager::new(10, 3);
    let r1 = m.record_detection_at("victory", 0, 1);
    let r2 = m.record_detection_at("victory", 1_000, 2);
    let r3 = m.record_detection_at("victory", 2_000, 3);
    assert!(!r1.event_triggered && !r2.event_triggered && r3.event_triggered);
    assert_eq!(counts(&m), (1, 0, 0));
    assert_eq!(m.state(), State::Cooldown);

    let r = m.record_detection_at("victory", 3_000, 4);
    assert!(!r.event_triggered);
    assert_eq!(counts(&m), (1, 0, 0));
    assert_eq!(m.state(), State::Cooldown);

    let r = m.record_detection_at("victory", 12_000, 5);
    assert!(!r.event_triggered);
    assert_eq!(m.state(), State::WaitingForNone);
    assert_eq!(counts(&m), (1, 0, 0));

    m.record_detection_at("none", 13_000, 6);
    assert_eq!(m.state(), State::Ready);

    m.record_detection_at("victory", 14_000, 7);
    m.record_detection_at("victory", 15_000, 8);
    let r = m.record_detection_at("victory", 16_000, 9);
    assert!(r.event_triggered);
    assert_eq!(counts(&m), (2, 0, 0));
}

#[test]
fn short_run_then_none_changes_nothing() {
    let mut m = StateManager::new(10, 3);
    let id = m.subscribe().unwrap();
    m.receive(id).unwrap();
    for k in 0..3u64 {
        for _ in 0..k {
            let r = m.record_detection_at("defeat", 0, 0);
            assert!(!r.event_triggered);
        }
        m.record_detection_at("none", 0, 0);
        assert_eq!(counts(&m), (0, 0, 0));
        assert_eq!(m.state(), State::Ready);
        assert_eq!(m.receive(id).unwrap().len(), 0);
    }
}

#[test]
fn full_run_counts_once_and_publishes_once() {
    let mut m = StateManager::new(10, 3);
    let id = m.subscribe().unwrap();
    m.receive(id).unwrap();
    m.record_detection_at("draw", 0, 0);
    m.record_detection_at("draw", 0, 0);
    m.record_detection_at("draw", 0, 77);
    assert_eq!(counts(&m), (0, 0, 1));
    assert_eq!(m.state(), State::Cooldown);
    let got = m.receive(id).unwrap();
    assert_eq!(got.len(), 1);
    assert_eq!(got[0].draws, 1);
    assert_eq!(got[0].last_outcome, Some(Outcome::Draw));
    assert_eq!(got[0].timestamp_ms, 77);
}

#[test]
fn first_detection_marks_start_of_run() {
    let mut m = StateManager::new(10, 3);
    let r = m.record_detection_at("victory", 0, 0);
    assert_eq!(r, DetectionResult { event_triggered: false, is_first_detection: true });
    let r = m.record_detection_at("defeat", 0, 0);
    assert_eq!(r, DetectionResult { event_triggered: false, is_first_detection: false });
    let r = m.record_detection_at("victory", 0, 0);
    assert!(r.event_triggered);
    assert_eq!(counts(&m), (1, 0, 0));
}

#[test]
fn unknown_label_breaks_a_run_like_none() {
    let mut m = StateManager::new(10, 3);
    m.record_detection_at("victory", 0, 0);
    m.record_detection_at("victory", 0, 0);
    m.record_detection_at("banner", 0, 0);
    let r = m.record_detection_at("victory", 0, 0);
    assert!(r.is_first_detection && !r.event_triggered);
    assert_eq!(counts(&m), (0, 0, 0));
}

#[test]
fn cooldown_ignores_everything_until_it_runs_out() {
    let mut m = StateManager::new(10, 1);
    assert!(m.record_detection_at("defeat", 500, 0).event_triggered);
    for label in ["victory", "defeat", "draw", "none"] {
        let r = m.record_detection_at(label, 10_499, 0);
        assert!(!r.event_triggered);
        assert_eq!(m.state(), State::Cooldown);
    }
    assert_eq!(counts(&m), (0, 1, 0));
    m.record_detection_at("none", 10_500, 0);
    assert_eq!(m.state(), State::Ready);
}

#[test]
fn waiting_for_none_holds_until_none() {
    let mut m = StateManager::new(0, 1);
    m.record_detection_at("victory", 0, 0);
    m.record_detection_at("victory", 0, 0);
    assert_eq!(m.state(), State::WaitingForNone);
    for _ in 0..5 {
        assert!(!m.record_detection_at("defeat", 0, 0).event_triggered);
        assert_eq!(m.state(), State::WaitingForNone);
    }
    m.record_detection_at("none", 0, 0);
    assert_eq!(m.state(), State::Ready);
    assert!(m.record_detection_at("defeat", 0, 0).event_triggered);
    assert_eq!(counts(&m), (1, 1, 0));
}

#[test]
fn adjust_clamps_at_zero() {
    let mut m = StateManager::new(10, 3);
    m.initialize(2, 5, 1);
    m.adjust("victory", -3);
    m.adjust("defeat", -1);
    m.adjust("draw", 4);
    assert_eq!(counts(&m), (0, 4, 5));
    for d in [-1, -100, 3, -2, i32::MIN, 7] {
        m.adjust("victory", d);
    }
    assert_eq!(counts(&m).0, 7);
    m.adjust("loss", 10);
    assert_eq!(counts(&m), (7, 4, 5));
}

#[test]
fn shift_holds_within_u32() {
    assert_eq!(shift(3, -5), 0);
    assert_eq!(shift(3, 5), 8);
    assert_eq!(shift(u32::MAX, 1), u32::MAX);
    assert_eq!(shift(u32::MAX, i32::MIN), u32::MAX - 2_147_483_648);
}

#[test]
fn initialize_and_adjust_publish_snapshots() {
    let mut m = StateManager::new(10, 3);
    let id = m.subscribe().unwrap();
    m.receive(id).unwrap();
    m.initialize(4, 3, 2);
    m.adjust("defeat", 1);
    m.adjust("other", 1);
    let got = m.receive(id).unwrap();
    assert_eq!(got.len(), 3);
    assert_eq!((got[0].victories, got[0].defeats, got[0].draws, got[0].last_outcome), (4, 3, 2, None));
    assert_eq!((got[1].defeats, got[1].last_outcome), (4, Some(Outcome::Defeat)));
    assert_eq!((got[2].defeats, got[2].last_outcome), (4, Some(Outcome::Nothing)));
}

#[test]
fn initialize_keeps_the_debounce_cycle() {
    let mut m = StateManager::new(10, 3);
    m.record_detection_at("victory", 0, 0);
    m.record_detection_at("victory", 0, 0);
    m.initialize(10, 0, 0);
    assert!(m.record_detection_at("victory", 0, 0).event_triggered);
    assert_eq!(counts(&m), (11, 0, 0));
}

#[test]
fn late_subscriber_gets_current_snapshot_then_live_updates() {
    let mut m = StateManager::new(10, 1);
    m.record_detection_at("victory", 0, 0);
    m.record_detection_at("none", 20_000, 0);
    m.record_detection_at("none", 20_000, 0);
    m.initialize(5, 6, 7);
    m.adjust("draw", 1);
    let id = m.subscribe().unwrap();
    m.adjust("victory", 1);
    m.adjust("defeat", -1);
    let got = m.receive(id).unwrap();
    assert_eq!(got.len(), 3);
    assert_eq!((got[0].victories, got[0].defeats, got[0].draws, got[0].last_outcome), (5, 6, 8, None));
    assert_eq!((got[1].victories, got[1].last_outcome), (6, Some(Outcome::Victory)));
    assert_eq!((got[2].defeats, got[2].last_outcome), (5, Some(Outcome::Defeat)));
    assert_eq!(m.receive(id).unwrap().len(), 0);
}

#[test]
fn unsubscribed_slot_is_closed_and_reused() {
    let mut m = StateManager::new(10, 3);
    let a = m.subscribe().unwrap();
    let b = m.subscribe().unwrap();
    assert_ne!(a, b);
    m.unsubscribe(a);
    assert!(m.receive(a).is_none());
    let c = m.subscribe().unwrap();
    assert_eq!(c, a);
    assert!(m.receive(99).is_none());
}

#[test]
fn full_queue_drops_its_oldest_item() {
    let mut b: Broadcaster<u32> = Broadcaster::new(3);
    let slow = b.subscribe(0);
    let fast = b.subscribe(100);
    b.drain(fast);
    for i in 1..=4u32 {
        b.publish(i);
    }
    assert_eq!(b.drain(slow).unwrap(), vec![2, 3, 4]);
    assert_eq!(b.drain(fast).unwrap(), vec![2, 3, 4]);
}

#[test]
fn zero_capacity_means_one() {
    let mut b: Broadcaster<u8> = Broadcaster::new(0);
    assert_eq!(b.queue_capacity(), 1);
    let s = b.subscribe(9);
    b.publish(1);
    b.publish(2);
    assert_eq!(b.drain(s).unwrap(), vec![2]);
}

#[test]
fn screenshot_only_for_first_victory_or_defeat() {
    let first = DetectionResult { event_triggered: false, is_first_detection: true };
    let later = DetectionResult { event_triggered: false, is_first_detection: false };
    assert!(wants_screenshot(true, first, "victory"));
    assert!(wants_screenshot(true, first, "defeat"));
    assert!(!wants_screenshot(true, first, "draw"));
    assert!(!wants_screenshot(true, later, "victory"));
    assert!(!wants_screenshot(false, first, "victory"));
}

#[test]
fn sleep_is_the_rest_of_the_interval() {
    assert_eq!(remaining_sleep_ms(1000, 250), 750);
    assert_eq!(remaining_sleep_ms(1000, 1000), 0);
    assert_eq!(remaining_sleep_ms(1000, 5000), 0);
}

#[test]
fn tick_after_classification_records_and_decides() {
    let mut m = StateManager::new(10, 2);
    let a = after_classification(&mut m, "defeat", true);
    assert!(a.save_screenshot && !a.event_triggered);
    let a = after_classification(&mut m, "defeat", true);
    assert!(!a.save_screenshot && a.event_triggered);
    assert_eq!(counts(&m), (0, 1, 0));
}

#[test]
fn record_detection_reads_the_clock() {
    let mut m = StateManager::new(10, 1);
    assert!(m.record_detection("victory").event_triggered);
    assert!(!m.record_detection("victory").event_triggered);
    assert_eq!(m.state(), State::Cooldown);
    assert!(m.summary().timestamp_ms > 0);
}

#[test]
fn outcome_labels_round_trip() {
    for o in [Outcome::Victory, Outcome::Defeat, Outcome::Draw, Outcome::Nothing] {
        assert_eq!(Outcome::from_label(&o.label()), o);
    }
    assert_eq!(Outcome::from_label("Victory"), Outcome::Nothing);
}

#[test]
fn run_at_the_counter_limit_publishes_nothing() {
    let mut m = StateManager::new(10, 2);
    m.initialize(u32::MAX, 0, 0);
    let id = m.subscribe().unwrap();
    m.receive(id).unwrap();
    m.record_detection_at("victory", 0, 0);
    let r = m.record_detection_at("victory", 0, 0);
    assert!(r.event_triggered);
    assert_eq!(m.state(), State::Cooldown);
    assert_eq!(counts(&m), (u32::MAX, 0, 0));
    assert_eq!(m.receive(id).unwrap().len(), 0);
}
