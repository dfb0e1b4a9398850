//! Debounced input logic.  The input task of the surrounding program polls
//! the two input pins and feeds the raw readings, with the time of the
//! poll, into a [`Debouncer`] per pin; the edge decisions made here become
//! the [`GpiEvent`]s the state machine consumes.

use vstd::prelude::*;

verus! {

/// A raw reading must hold this long before it becomes the stable state.
pub const DEBOUNCE_TIME_MS: u64 = 100;

/// How often the pins are polled.
pub const POLL_INTERVAL_MS: u64 = 50;

/// While the obstacle input stays active, the detection is re-reported at
/// this interval.
pub const OBSTACLE_REPEAT_MS: u64 = 3000;

/// Debouncer state for a single input pin.
pub struct Debouncer {
    pub stable_state: bool,
    pub last_change_ms: u64,
    pub pending_state: bool,
}

impl Debouncer {
    pub fn new(initial_state: bool, now_ms: u64) -> (d: Debouncer)
        ensures
            d.stable_state == initial_state,
            d.pending_state == initial_state,
            d.last_change_ms == now_ms,
    {
        Debouncer { stable_state: initial_state, last_change_ms: now_ms, pending_state: initial_state }
    }

    /// Feed one raw reading taken at `now_ms`.  A reading that differs from
    /// the pending state restarts the debounce timer; one that has differed
    /// from the stable state for `DEBOUNCE_TIME_MS` becomes the new stable
    /// state, and the edge is reported: `Some(true)` rising, `Some(false)`
    /// falling.
    pub fn update(&mut self, raw_state: bool, now_ms: u64) -> (edge: Option<bool>)
        requires
            old(self).last_change_ms <= now_ms,
        ensures
            raw_state != old(self).pending_state ==> {
                &&& edge is None
                &&& *final(self) == Debouncer {
                    pending_state: raw_state,
                    last_change_ms: now_ms,
                    ..*old(self)
                }
            },
            raw_state == old(self).pending_state && raw_state != old(self).stable_state ==> {
                &&& (now_ms - old(self).last_change_ms >= DEBOUNCE_TIME_MS ==> edge == Some(
                    raw_state,
                ) && *final(self) == Debouncer { stable_state: raw_state, ..*old(self) })
                &&& (now_ms - old(self).last_change_ms < DEBOUNCE_TIME_MS ==> edge is None
                    && *final(self) == *old(self))
            },
            raw_state == old(self).pending_state && raw_state == old(self).stable_state ==> edge
                is None && *final(self) == *old(self),
    {
        if raw_state != self.pending_state {
            self.pending_state = raw_state;
            self.last_change_ms = now_ms;
            None
        } else if raw_state != self.stable_state {
            if now_ms - self.last_change_ms >= DEBOUNCE_TIME_MS {
                self.stable_state = raw_state;
                Some(raw_state)
            } else {
                None
            }
        } else {
            None
        }
    }
}

/// Whether an active obstacle reading is due to be reported again: always
/// on the first report, afterwards once `OBSTACLE_REPEAT_MS` have passed
/// since the last one.
pub fn obstacle_repeat_due(last_report: Option<u64>, now_ms: u64) -> (r: bool)
    requires
        last_report matches Some(t) ==> t <= now_ms,
    ensures
        r == match last_report {
            None => true,
            Some(t) => now_ms - t >= OBSTACLE_REPEAT_MS,
        },
{
    match last_report {
        None => true,
        Some(t) => now_ms - t >= OBSTACLE_REPEAT_MS,
    }
}

/// Synchronous snapshot of the obstacle input.  Obstacle handling runs
/// entirely through the event channel, so this snapshot interface reports
/// no obstacle.
pub fn is_obstacle_active() -> (r: bool)
    ensures
        r == false,
{
    false
}

} // verus!
