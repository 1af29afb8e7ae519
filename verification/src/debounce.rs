//! Suppression of duplicate rapid-fire hotkey presses.
//!
//! Key repeat and accidental double-taps deliver a burst of press events for
//! a single user action. The filter remembers when the last press was
//! accepted and drops any further press that arrives within a fixed window.
//! Release events are never dropped: push-to-talk correctness depends on
//! every release being observed.

use vstd::prelude::*;

verus! {

/// A second press within this many milliseconds of the last accepted press
/// is treated as a duplicate and dropped.
pub const DEBOUNCE_WINDOW_MS: u64 = 30;

/// Remembers the timestamp (in milliseconds) of the last accepted press.
#[derive(Debug, Clone, Copy, PartialEq, Eq, Structural)]
pub struct DebounceFilter {
    pub last_press_ms: Option<u64>,
}

impl DebounceFilter {
    /// The time of the last accepted press, if any press was accepted yet.
    pub open spec fn last_press(self) -> Option<u64> {
        self.last_press_ms
    }

    /// A press at `now_ms` is a duplicate iff some press was already accepted
    /// and `now_ms` lies before the end of its debounce window. A timestamp
    /// that goes backwards (`now_ms` before the last press) also counts as a
    /// duplicate: the elapsed time saturates at zero.
    pub open spec fn spec_is_duplicate(self, now_ms: u64) -> bool {
        match self.last_press() {
            Option::Some(t) => now_ms < t + DEBOUNCE_WINDOW_MS,
            Option::None => false,
        }
    }

    /// The filter state after an event at `now_ms`: an accepted press is
    /// recorded, anything else leaves the filter unchanged.
    pub open spec fn spec_after(self, pressed: bool, now_ms: u64) -> DebounceFilter {
        if pressed && !self.spec_is_duplicate(now_ms) {
            DebounceFilter { last_press_ms: Option::Some(now_ms) }
        } else {
            self
        }
    }

    /// Whether an event at `now_ms` passes the filter.
    pub open spec fn spec_passes(self, pressed: bool, now_ms: u64) -> bool {
        !pressed || !self.spec_is_duplicate(now_ms)
    }

    /// A fresh filter that will accept the first press at any time.
    pub fn new() -> (r: Self)
        ensures
            r.last_press() is None,
    {
        DebounceFilter { last_press_ms: None }
    }

    /// Feed one event through the filter. Returns `true` when the event must
    /// be handled and `false` when it is dropped as a duplicate press.
    pub fn accept(&mut self, pressed: bool, now_ms: u64) -> (r: bool)
        ensures
            r == old(self).spec_passes(pressed, now_ms),
            *final(self) == old(self).spec_after(pressed, now_ms),
    {
        if !pressed {
            return true;
        }
        let duplicate = match self.last_press_ms {
            Some(t) => now_ms < t || now_ms - t < DEBOUNCE_WINDOW_MS,
            None => false,
        };
        if duplicate {
            false
        } else {
            self.last_press_ms = Some(now_ms);
            true
        }
    }
}

/// Law: when a press is accepted at `t0`, a second press that arrives within
/// the debounce window and with no intervening accepted press is dropped and
/// leaves the filter exactly as it was.
pub proof fn lemma_rapid_second_press_dropped(f: DebounceFilter, t0: u64, t1: u64)
    requires
        !f.spec_is_duplicate(t0),
        t1 < t0 + DEBOUNCE_WINDOW_MS,
    ensures
        !f.spec_after(true, t0).spec_passes(true, t1),
        f.spec_after(true, t0).spec_after(true, t1) == f.spec_after(true, t0),
{
}

} // verus!
