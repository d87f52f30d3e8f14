//! Activation detector: a time-windowed state machine that turns a stream of
//! raw "selection changed" events (row index, or -1 for a deselection, each
//! with a second-resolution timestamp) into at most one `Activate(index)`
//! outcome per qualifying burst of events.

use vstd::prelude::*;

verus! {

/// Length of the burst window in seconds: an event arriving this many seconds
/// or more after its predecessor cannot belong to a burst.
pub const WINDOW_SECS: u64 = 1;

/// Largest burst count that may stand; a count about to exceed it is forced
/// back to zero, so held-down rapid clicking activates at most once.
pub const BURST_LIMIT: u32 = 2;

/// State of the activation detector. A burst is a run of events on the same
/// row (or deselections), each within `WINDOW_SECS` of the one before it;
/// exactly the second event of a burst activates.
pub struct ActivationState {
    /// Row index carried by the last counted event; -1 means none.
    pub last_selected_index: i32,
    /// Consecutive same-row (or deselection) events within the window.
    pub burst_count: u32,
    /// Timestamp (seconds) of the most recently processed event, counted or not.
    pub last_event_at: u64,
}

impl ActivationState {
    /// Well-formedness: the burst counter never exceeds the limit.
    pub open spec fn wf(self) -> bool {
        self.burst_count <= BURST_LIMIT
    }

    /// Seconds since the previous event; a clock that moved backward counts
    /// as no time having passed.
    pub open spec fn elapsed_of(self, now: u64) -> int {
        if now >= self.last_event_at {
            now - self.last_event_at
        } else {
            0
        }
    }

    /// Whether an event continues the current burst: same row as before, or a
    /// deselection.
    pub open spec fn continues_burst(self, index: i32) -> bool {
        index == self.last_selected_index || index == -1
    }

    /// The state after processing one event. Every event updates the recency
    /// clock; an event outside the window changes nothing else. Within the
    /// window, an event that continues the burst raises the count (forced back
    /// to zero once it would pass `BURST_LIMIT`), and an event on a different
    /// row starts a new burst with count zero.
    pub open spec fn step_state(self, index: i32, now: u64) -> ActivationState {
        if self.elapsed_of(now) >= WINDOW_SECS {
            ActivationState { last_event_at: now, ..self }
        } else if self.continues_burst(index) {
            if self.burst_count + 1 > BURST_LIMIT {
                ActivationState { last_selected_index: index, burst_count: 0, last_event_at: now }
            } else {
                ActivationState {
                    last_selected_index: index,
                    burst_count: (self.burst_count + 1) as u32,
                    last_event_at: now,
                }
            }
        } else {
            ActivationState { last_selected_index: index, burst_count: 0, last_event_at: now }
        }
    }

    /// The outcome of processing one event: `Some(index)` exactly when the
    /// event is within the window, continues the burst as its second event,
    /// and selects a real row (not a deselection).
    pub open spec fn step_output(self, index: i32, now: u64) -> Option<i32> {
        if self.elapsed_of(now) >= WINDOW_SECS {
            None
        } else if self.continues_burst(index) && self.burst_count + 1 == 1 && index != -1 {
            Some(index)
        } else {
            None
        }
    }

    /// A fresh detector: nothing selected, no burst under way.
    pub fn new() -> (s: ActivationState)
        ensures
            s.last_selected_index == -1,
            s.burst_count == 0,
            s.last_event_at == 0,
            s.wf(),
    {
        ActivationState { last_selected_index: -1, burst_count: 0, last_event_at: 0 }
    }

    /// Process one raw selection-changed event, mutating the state as
    /// `step_state` says and returning the activation `step_output` says.
    pub fn on_event(&mut self, index: i32, now: u64) -> (r: Option<i32>)
        requires
            old(self).wf(),
        ensures
            final(self).wf(),
            *final(self) == old(self).step_state(index, now),
            r == old(self).step_output(index, now),
    {
        let elapsed: u64 = if now >= self.last_event_at {
            now - self.last_event_at
        } else {
            0
        };
        self.last_event_at = now;
        if elapsed >= WINDOW_SECS {
            return None;
        }
        if index == self.last_selected_index || index == -1 {
            let next_count = self.burst_count + 1;
            if next_count > BURST_LIMIT {
                self.burst_count = 0;
                self.last_selected_index = index;
                return None;
            }
            self.burst_count = next_count;
        } else {
            self.burst_count = 0;
        }
        self.last_selected_index = index;
        if index == -1 {
            return None;
        }
        if self.burst_count == 1 {
            Some(index)
        } else {
            None
        }
    }
}

/// An event at least `WINDOW_SECS` after its predecessor never activates and
/// never touches the burst count or the remembered row; only the recency
/// clock moves.
pub proof fn lemma_slow_event_is_inert(s: ActivationState, index: i32, now: u64)
    requires
        s.elapsed_of(now) >= WINDOW_SECS,
    ensures
        s.step_output(index, now) is None,
        s.step_state(index, now).burst_count == s.burst_count,
        s.step_state(index, now).last_selected_index == s.last_selected_index,
        s.step_state(index, now).last_event_at == now,
{
}

/// A single selection of a row that was not already the last-selected row
/// never activates, however fast it arrives.
pub proof fn lemma_single_event_never_activates(s: ActivationState, index: i32, now: u64)
    requires
        index != s.last_selected_index || index == -1,
    ensures
        s.step_output(index, now) is None,
{
}

/// With a row already the last-selected one and no burst under way, two
/// further same-row events inside the window activate exactly once: on the
/// earlier of the two (the second event of the burst that the earlier
/// selection began); the follow-up event stays silent.
pub proof fn lemma_second_event_of_burst_activates(
    s: ActivationState,
    index: i32,
    t1: u64,
    t2: u64,
)
    requires
        s.wf(),
        s.burst_count == 0,
        s.last_selected_index == index,
        index != -1,
        s.elapsed_of(t1) < WINDOW_SECS,
        s.step_state(index, t1).elapsed_of(t2) < WINDOW_SECS,
    ensures
        s.step_output(index, t1) == Some(index),
        s.step_state(index, t1).step_output(index, t2) is None,
{
}

/// Three consecutive same-row events, each inside the window, starting from a
/// state where that row was not yet selected: exactly one activation, on the
/// second event; the third stays silent.
pub proof fn lemma_triple_click_activates_once(
    s: ActivationState,
    index: i32,
    t1: u64,
    t2: u64,
    t3: u64,
)
    requires
        s.wf(),
        s.last_selected_index != index,
        index != -1,
        s.elapsed_of(t1) < WINDOW_SECS,
        s.step_state(index, t1).elapsed_of(t2) < WINDOW_SECS,
        s.step_state(index, t1).step_state(index, t2).elapsed_of(t3) < WINDOW_SECS,
    ensures
        s.step_output(index, t1) is None,
        s.step_state(index, t1).step_output(index, t2) == Some(index),
        s.step_state(index, t1).step_state(index, t2).step_output(index, t3) is None,
{
}

/// Four consecutive same-row events, each inside the window, starting from a
/// state where that row was not yet selected: exactly one activation in
/// total. The burst is forced back to zero on the fourth event, which begins
/// a fresh, non-activating count.
pub proof fn lemma_quadruple_click_activates_once(
    s: ActivationState,
    index: i32,
    t1: u64,
    t2: u64,
    t3: u64,
    t4: u64,
)
    requires
        s.wf(),
        s.last_selected_index != index,
        index != -1,
        s.elapsed_of(t1) < WINDOW_SECS,
        s.step_state(index, t1).elapsed_of(t2) < WINDOW_SECS,
        s.step_state(index, t1).step_state(index, t2).elapsed_of(t3) < WINDOW_SECS,
        s.step_state(index, t1).step_state(index, t2).step_state(index, t3).elapsed_of(t4)
            < WINDOW_SECS,
    ensures
        s.step_output(index, t1) is None,
        s.step_state(index, t1).step_output(index, t2) == Some(index),
        s.step_state(index, t1).step_state(index, t2).step_output(index, t3) is None,
        s.step_state(index, t1).step_state(index, t2).step_state(index, t3).step_output(
            index,
            t4,
        ) is None,
        s.step_state(index, t1).step_state(index, t2).step_state(index, t3).step_state(
            index,
            t4,
        ).burst_count == 0,
{
}

} // verus!
