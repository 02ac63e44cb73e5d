//! Counter reconciliation: the one place real policy lives.
//!
//! A device-reported counter (uptime, obstructed seconds, valid seconds)
//! is not monotonic: a device restart silently rolls the raw reading
//! back. Each counter therefore keeps a shadow of the raw reading
//! observed last cycle. A raw reading above the shadow is a normal
//! advance and the exposed value is incremented by the difference; a
//! reading below it is taken as a restart and the exposed value is reset
//! to the new reading; an unchanged reading changes nothing. The shadow
//! is set to the raw reading after every step.
//!
//! The state invariant `wf` says the exposed value and the shadow encode
//! the same reading; it holds from the zeroed initial state and every
//! step preserves it. Under it, both the advance and the restart case
//! leave the exposed value equal to the raw reading just observed.

use vstd::prelude::*;

use crate::sample::{sample_key, sample_lt, spec_sample_lt, Sample, SAMPLE_ZERO};

verus! {

/// What the exposition layer must do to its counter object after one
/// reconciliation step.
#[derive(Clone, Copy, Debug, PartialEq, Eq, Structural)]
pub enum CounterAction {
    /// The raw reading did not move: leave the counter alone.
    NoChange,
    /// The raw reading advanced: increment the counter by the difference
    /// between the new reading and the previous one.
    Increment,
    /// The raw reading rolled back (device restart): reset the counter
    /// to zero, then increment it by the new reading.
    Reset,
}

/// Per-counter reconciliation state: the exposed accumulated value and
/// the raw reading observed last cycle, both initially zero.
#[derive(Clone, Copy, Debug, PartialEq, Eq, Structural)]
pub struct CounterState {
    pub exposed: Sample,
    pub last_raw: Sample,
}

/// One step of the counter policy on the state alone: the exposed value
/// keeps its reading when the raw reading did not move, and becomes the
/// raw reading otherwise (an advance increments the exposed value, which
/// under `CounterState::wf` equals the previous reading, by exactly the
/// difference; a rollback resets it to the new reading).
pub open spec fn counter_step(st: CounterState, raw: Sample) -> CounterState {
    CounterState {
        exposed: if sample_key(raw) == sample_key(st.last_raw) {
            st.exposed
        } else {
            raw
        },
        last_raw: raw,
    }
}

/// The action that one step of the counter policy asks of the exposition
/// layer, `NoChange` when the field was absent this cycle.
pub open spec fn counter_action(st: CounterState, obs: Option<Sample>) -> CounterAction {
    match obs {
        Some(raw) => if spec_sample_lt(st.last_raw, raw) {
            CounterAction::Increment
        } else if spec_sample_lt(raw, st.last_raw) {
            CounterAction::Reset
        } else {
            CounterAction::NoChange
        },
        None => CounterAction::NoChange,
    }
}

/// The counter state after a cycle in which the raw reading was `obs`:
/// unchanged when the field was absent.
pub open spec fn counter_after(st: CounterState, obs: Option<Sample>) -> CounterState {
    match obs {
        Some(raw) => counter_step(st, raw),
        None => st,
    }
}

/// The counter state after processing a whole sequence of raw readings,
/// oldest first.
pub open spec fn counter_run(st: CounterState, raws: Seq<Sample>) -> CounterState
    decreases raws.len(),
{
    if raws.len() == 0 {
        st
    } else {
        counter_step(counter_run(st, raws.drop_last()), raws.last())
    }
}

impl CounterState {
    /// The exposed value and the shadow encode the same reading.
    pub open spec fn wf(self) -> bool {
        sample_key(self.exposed) == sample_key(self.last_raw)
    }

    /// A fresh counter: nothing exposed, nothing observed.
    pub fn new() -> (st: CounterState)
        ensures
            st == (CounterState { exposed: SAMPLE_ZERO, last_raw: SAMPLE_ZERO }),
            st.wf(),
    {
        CounterState { exposed: SAMPLE_ZERO, last_raw: SAMPLE_ZERO }
    }

    /// Processes one raw reading: advances, resets, or leaves the
    /// exposed value, and always remembers the reading in the shadow.
    /// The returned action tells the exposition layer how to move its
    /// counter object to the new exposed value.
    pub fn reconcile(&mut self, raw: Sample) -> (action: CounterAction)
        requires
            old(self).wf(),
        ensures
            final(self).wf(),
            *final(self) == counter_step(*old(self), raw),
            action == counter_action(*old(self), Some(raw)),
            final(self).last_raw == raw,
            sample_key(final(self).exposed) == sample_key(raw),
            spec_sample_lt(old(self).last_raw, raw) ==> final(self).exposed == raw,
            spec_sample_lt(raw, old(self).last_raw) ==> final(self).exposed == raw,
            sample_key(raw) == sample_key(old(self).last_raw) ==> final(self).exposed == old(
                self,
            ).exposed,
            !spec_sample_lt(raw, old(self).last_raw) ==> sample_key(final(self).exposed)
                >= sample_key(old(self).exposed),
    {
        let action;
        if sample_lt(self.last_raw, raw) {
            self.exposed = raw;
            action = CounterAction::Increment;
        } else if sample_lt(raw, self.last_raw) {
            self.exposed = raw;
            action = CounterAction::Reset;
        } else {
            action = CounterAction::NoChange;
        }
        self.last_raw = raw;
        action
    }
}

/// The counter policy preserves the state invariant over any sequence of
/// raw readings.
pub proof fn lemma_counter_run_wf(st: CounterState, raws: Seq<Sample>)
    requires
        st.wf(),
    ensures
        counter_run(st, raws).wf(),
    decreases raws.len(),
{
    if raws.len() > 0 {
        lemma_counter_run_wf(st, raws.drop_last());
    }
}

/// Counter monotonic-or-reset. For any sequence of raw readings, the
/// exposed value after processing reading `i` encodes that reading: on a
/// rollback it is reset to the reading (dropping what was accumulated),
/// and otherwise it grows from the previous exposed value by exactly the
/// distance, in the order of the readings, from the previous reading to
/// the new one — in particular it never decreases.
pub proof fn lemma_counter_monotonic_or_reset(st: CounterState, raws: Seq<Sample>, i: int)
    requires
        st.wf(),
        0 <= i < raws.len(),
    ensures
        ({
            let prev = counter_run(st, raws.take(i));
            let cur = counter_run(st, raws.take(i + 1));
            &&& cur == counter_step(prev, raws[i])
            &&& sample_key(cur.exposed) == sample_key(raws[i])
            &&& spec_sample_lt(raws[i], prev.last_raw) ==> cur.exposed == raws[i]
            &&& !spec_sample_lt(raws[i], prev.last_raw) ==> sample_key(cur.exposed) == sample_key(
                prev.exposed,
            ) + (sample_key(raws[i]) - sample_key(prev.last_raw))
            &&& !spec_sample_lt(raws[i], prev.last_raw) ==> sample_key(cur.exposed) >= sample_key(
                prev.exposed,
            )
        }),
{
    lemma_counter_run_wf(st, raws.take(i));
    assert(raws.take(i + 1).drop_last() =~= raws.take(i));
    assert(raws.take(i + 1).last() == raws[i]);
}

} // verus!
