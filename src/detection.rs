use vstd::prelude::*;

use crate::outcome::{outcome_of, Outcome};
use crate::state::{DetectionResult, StateManager};

verus! {

/// The outcomes whose first sighting in a run is worth a screenshot.
pub open spec fn is_interesting(o: Outcome) -> bool {
    o == Outcome::Victory || o == Outcome::Defeat
}

/// Whether the first frame of a run is saved: screenshots are on, the
/// observation opened a run, and its outcome is a victory or a defeat.
pub fn wants_screenshot(enabled: bool, result: DetectionResult, outcome: &str) -> (r: bool)
    ensures
        r == (enabled && result.is_first_detection && is_interesting(outcome_of(outcome@))),
{
    if !enabled || !result.is_first_detection {
        return false;
    }
    match Outcome::from_label(outcome) {
        Outcome::Victory | Outcome::Defeat => true,
        _ => false,
    }
}

/// How long the loop sleeps after a tick that took `elapsed_ms`: the rest of
/// the interval, or nothing when the tick overran it.
pub fn remaining_sleep_ms(interval_ms: u64, elapsed_ms: u64) -> (r: u64)
    ensures
        r == if elapsed_ms < interval_ms {
            interval_ms - elapsed_ms
        } else {
            0
        },
{
    if elapsed_ms < interval_ms {
        interval_ms - elapsed_ms
    } else {
        0
    }
}

/// What the loop does once a tick's observation is recorded.
#[derive(Clone, Copy, Debug, PartialEq, Eq, Structural)]
pub struct TickAction {
    /// Save the uncut frame as the first of a run.
    pub save_screenshot: bool,
    /// A counter went up.
    pub event_triggered: bool,
}

/// Records the label that a tick's classification gave and decides what
/// the loop does about it. A tick whose capture, crop or classification
/// failed records nothing and does not come here.
pub fn after_classification(manager: &mut StateManager, label: &str, screenshots_enabled: bool) -> (r:
    TickAction)
    requires
        old(manager).wf(),
    ensures
        final(manager).wf(),
        r.event_triggered == old(manager)@.record_result(outcome_of(label@)).event_triggered,
        r.save_screenshot == (screenshots_enabled && old(manager)@.record_result(
            outcome_of(label@),
        ).is_first_detection && is_interesting(outcome_of(label@))),
        exists|now_ms: u64, wall_ms: u64|
            final(manager)@ == old(manager)@.after_record(outcome_of(label@), now_ms, wall_ms),
{
    let result = manager.record_detection(label);
    TickAction {
        save_screenshot: wants_screenshot(screenshots_enabled, result, label),
        event_triggered: result.event_triggered,
    }
}

} // verus!
