//! Countdown and repeating timers driven by elapsed frame time.
//!
//! A timer advances once per frame by the frame's delta, in milliseconds.
//! Besides the running elapsed time it records how many times it completed
//! during the most recent advance: that count carries the "just finished"
//! edge signal, which despawn and animation passes read later in the same
//! frame. For a one-shot timer the edge fires on exactly one tick; for a
//! repeating timer it fires on every tick in which the timer wrapped.

use vstd::prelude::*;

verus! {

/// Whether a timer stops at its duration or wraps around and counts again.
#[derive(Clone, Copy, Debug, PartialEq, Eq, Structural)]
pub enum TimerMode {
    Once,
    Repeating,
}

/// A timer, all times in milliseconds.
#[derive(Clone, Copy, Debug, PartialEq, Eq, Structural)]
pub struct Timer {
    pub duration_ms: u64,
    pub elapsed_ms: u64,
    pub mode: TimerMode,
    /// How many times the timer completed during the most recent tick.
    pub cycles_this_tick: u64,
}

impl Timer {
    /// Well-formed: positive duration; a one-shot timer's elapsed time is
    /// clamped at its duration, a repeating timer's stays strictly below it.
    pub open spec fn inv(self) -> bool {
        &&& self.duration_ms > 0
        &&& match self.mode {
            TimerMode::Once => self.elapsed_ms <= self.duration_ms,
            TimerMode::Repeating => self.elapsed_ms < self.duration_ms,
        }
    }

    /// A fresh timer of the given duration and mode: nothing elapsed yet.
    pub open spec fn new_spec(duration_ms: u64, mode: TimerMode) -> Timer {
        Timer { duration_ms, elapsed_ms: 0, mode, cycles_this_tick: 0 }
    }

    pub fn new(duration_ms: u64, mode: TimerMode) -> (t: Timer)
        requires
            duration_ms > 0,
        ensures
            t == Timer::new_spec(duration_ms, mode),
            t.inv(),
    {
        Timer { duration_ms, elapsed_ms: 0, mode, cycles_this_tick: 0 }
    }

    /// The timer after one advance by `delta_ms`.
    ///
    /// One-shot: elapsed time accumulates and clamps at the duration; the
    /// completion count is 1 exactly on the advance that crosses the
    /// duration. Repeating: elapsed time wraps modulo the duration and the
    /// completion count is the number of whole cycles covered.
    pub open spec fn tick_spec(self, delta_ms: u64) -> Timer {
        let total = self.elapsed_ms + delta_ms;
        match self.mode {
            TimerMode::Once => Timer {
                duration_ms: self.duration_ms,
                elapsed_ms: if total >= self.duration_ms {
                    self.duration_ms
                } else {
                    total as u64
                },
                mode: self.mode,
                cycles_this_tick: if self.elapsed_ms < self.duration_ms
                    && total >= self.duration_ms {
                    1
                } else {
                    0
                },
            },
            TimerMode::Repeating => Timer {
                duration_ms: self.duration_ms,
                elapsed_ms: (total % (self.duration_ms as int)) as u64,
                mode: self.mode,
                cycles_this_tick: (total / (self.duration_ms as int)) as u64,
            },
        }
    }

    /// Advance the timer by the frame's delta.
    pub fn tick(&mut self, delta_ms: u64)
        requires
            old(self).inv(),
            old(self).elapsed_ms + delta_ms <= u64::MAX,
        ensures
            *final(self) == old(self).tick_spec(delta_ms),
            final(self).inv(),
    {
        let total: u64 = self.elapsed_ms + delta_ms;
        match self.mode {
            TimerMode::Once => {
                if total >= self.duration_ms {
                    self.cycles_this_tick = if self.elapsed_ms < self.duration_ms {
                        1
                    } else {
                        0
                    };
                    self.elapsed_ms = self.duration_ms;
                } else {
                    self.elapsed_ms = total;
                    self.cycles_this_tick = 0;
                }
            },
            TimerMode::Repeating => {
                self.cycles_this_tick = total / self.duration_ms;
                self.elapsed_ms = total % self.duration_ms;
            },
        }
    }

    /// "Finished" level signal: a one-shot timer stays finished once it has
    /// run out; a repeating timer reports finished only on the ticks in
    /// which it wrapped, which is its edge signal.
    pub open spec fn finished_spec(self) -> bool {
        match self.mode {
            TimerMode::Once => self.elapsed_ms >= self.duration_ms,
            TimerMode::Repeating => self.cycles_this_tick > 0,
        }
    }

    pub fn finished(&self) -> (r: bool)
        ensures
            r == self.finished_spec(),
    {
        match self.mode {
            TimerMode::Once => self.elapsed_ms >= self.duration_ms,
            TimerMode::Repeating => self.cycles_this_tick > 0,
        }
    }

    /// "Just finished" edge signal: the timer completed during the most
    /// recent tick.
    pub open spec fn just_finished_spec(self) -> bool {
        self.cycles_this_tick > 0
    }

    pub fn just_finished(&self) -> (r: bool)
        ensures
            r == self.just_finished_spec(),
    {
        self.cycles_this_tick > 0
    }

    /// The timer wound back to its start, duration and mode kept.
    pub open spec fn reset_spec(self) -> Timer {
        Timer { duration_ms: self.duration_ms, elapsed_ms: 0, mode: self.mode, cycles_this_tick: 0 }
    }

    pub fn reset(&mut self)
        ensures
            *final(self) == old(self).reset_spec(),
    {
        self.elapsed_ms = 0;
        self.cycles_this_tick = 0;
    }
}

/// The timer after a whole run of frames with the given deltas.
pub open spec fn timer_run(t: Timer, deltas: Seq<u64>) -> Timer
    decreases deltas.len(),
{
    if deltas.len() == 0 {
        t
    } else {
        timer_run(t.tick_spec(deltas[0]), deltas.drop_first())
    }
}

/// On how many frames of the run the timer's "just finished" edge fires.
pub open spec fn edge_count(t: Timer, deltas: Seq<u64>) -> nat
    decreases deltas.len(),
{
    if deltas.len() == 0 {
        0
    } else {
        (if t.tick_spec(deltas[0]).just_finished_spec() {
            1nat
        } else {
            0nat
        }) + edge_count(t.tick_spec(deltas[0]), deltas.drop_first())
    }
}

/// The total time a run of frames covers.
pub open spec fn sum_of(deltas: Seq<u64>) -> int
    decreases deltas.len(),
{
    if deltas.len() == 0 {
        0
    } else {
        deltas[0] + sum_of(deltas.drop_first())
    }
}

/// A run of frames never covers negative time.
pub proof fn lemma_sum_of_nonneg(deltas: Seq<u64>)
    ensures
        sum_of(deltas) >= 0,
    decreases deltas.len(),
{
    if deltas.len() > 0 {
        lemma_sum_of_nonneg(deltas.drop_first());
    }
}

/// A one-shot timer's edge fires at most once, over any run of frames
/// whatever its deltas: never once the timer is already finished, and
/// exactly once from an unfinished timer if and only if the run covers the
/// rest of its duration.
pub proof fn lemma_once_timer_edge_fires_at_most_once(t: Timer, deltas: Seq<u64>)
    requires
        t.inv(),
        t.mode == TimerMode::Once,
    ensures
        edge_count(t, deltas) <= 1,
        t.finished_spec() ==> edge_count(t, deltas) == 0,
        !t.finished_spec() ==> (edge_count(t, deltas) == 1 <==> t.elapsed_ms + sum_of(deltas)
            >= t.duration_ms),
    decreases deltas.len(),
{
    if deltas.len() > 0 {
        let ticked = t.tick_spec(deltas[0]);
        lemma_sum_of_nonneg(deltas.drop_first());
        lemma_once_timer_edge_fires_at_most_once(ticked, deltas.drop_first());
    }
}

} // verus!
