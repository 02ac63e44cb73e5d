//! Per-field update policy for gauges and labeled gauge vectors.
//!
//! Absence is first class: a field the device did not report this cycle
//! leaves its metric exactly as it was, which is not the same thing as
//! the device reporting zero. A present scalar overwrites the gauge; a
//! present alert flag coerces to exactly one or exactly zero; a reported
//! wedge vector overwrites the wedges it covers and leaves the rest.

use vstd::prelude::*;

use crate::error::Error;
use crate::sample::{flag_sample, spec_flag_sample, Sample};

verus! {

/// The number of 30-degree angular wedges around the device, and so the
/// fixed cardinality of the per-wedge gauge vectors.
pub const WEDGE_COUNT: usize = 12;

/// A scalar gauge after one cycle: the reported value, or the prior one
/// when the field was absent.
pub open spec fn gauge_after(prior: Sample, field: Option<Sample>) -> Sample {
    match field {
        Some(v) => v,
        None => prior,
    }
}

/// An alert-flag gauge after one cycle: exactly one or exactly zero when
/// the flag was reported, the prior value when it was absent.
pub open spec fn flag_after(prior: Sample, field: Option<bool>) -> Sample {
    match field {
        Some(v) => spec_flag_sample(v),
        None => prior,
    }
}

/// The per-wedge values after one cycle: wedge `i` takes the reported
/// value `values[i]` where the reported sequence covers it, and keeps
/// its prior value from there on. An absent vector field reconciles as
/// the empty sequence, which changes nothing.
pub open spec fn vector_after(prior: Seq<Sample>, values: Seq<Sample>) -> Seq<Sample> {
    Seq::new(prior.len(), |i: int| if i < values.len() { values[i] } else { prior[i] })
}

/// Sets a scalar gauge from an optional field: overwrite when present,
/// keep when absent.
pub fn update_gauge(current: &mut Sample, field: Option<Sample>)
    ensures
        *final(current) == gauge_after(*old(current), field),
{
    if let Some(v) = field {
        *current = v;
    }
}

/// Sets an alert-flag gauge from an optional boolean field: exactly one
/// for true and exactly zero for false when present, keep when absent.
pub fn update_flag(current: &mut Sample, field: Option<bool>)
    ensures
        *final(current) == flag_after(*old(current), field),
{
    if let Some(v) = field {
        *current = flag_sample(v);
    }
}

/// Sets the leading wedges of a per-wedge gauge vector from a reported
/// sequence. A sequence longer than the declared twelve wedges is a
/// label-set violation: the pass is refused and nothing is written.
pub fn update_vector(current: &mut Vec<Sample>, values: &Vec<Sample>) -> (r: Result<(), Error>)
    requires
        old(current)@.len() == WEDGE_COUNT,
    ensures
        final(current)@.len() == WEDGE_COUNT,
        values@.len() <= WEDGE_COUNT ==> r is Ok && final(current)@ == vector_after(
            old(current)@,
            values@,
        ),
        values@.len() > WEDGE_COUNT ==> r == Err::<(), Error>(Error::LabelCardinality)
            && final(current)@ == old(current)@,
{
    if values.len() > WEDGE_COUNT {
        return Err(Error::LabelCardinality);
    }
    let mut i: usize = 0;
    while i < values.len()
        invariant
            i <= values@.len(),
            values@.len() <= WEDGE_COUNT,
            current@.len() == WEDGE_COUNT,
            forall|j: int| 0 <= j < i ==> current@[j] == values@[j],
            forall|j: int| i <= j < WEDGE_COUNT ==> current@[j] == old(current)@[j],
        decreases values@.len() - i,
    {
        let v = values[i];
        current.set(i, v);
        i += 1;
    }
    proof {
        assert(current@ =~= vector_after(old(current)@, values@));
    }
    Ok(())
}

/// Vector index stability. A full-length update writes every wedge with
/// its own reported value; re-running with a shorter sequence rewrites
/// only the wedges it covers, and every wedge past its end still holds
/// the value the full-length update gave it.
pub proof fn lemma_vector_index_stability(
    prior: Seq<Sample>,
    full: Seq<Sample>,
    shorter: Seq<Sample>,
)
    requires
        prior.len() == WEDGE_COUNT,
        full.len() == WEDGE_COUNT,
        shorter.len() <= WEDGE_COUNT,
    ensures
        forall|i: int| 0 <= i < WEDGE_COUNT ==> #[trigger] vector_after(prior, full)[i] == full[i],
        forall|i: int|
            0 <= i < shorter.len() ==> #[trigger] vector_after(
                vector_after(prior, full),
                shorter,
            )[i] == shorter[i],
        forall|i: int|
            shorter.len() <= i < WEDGE_COUNT ==> #[trigger] vector_after(
                vector_after(prior, full),
                shorter,
            )[i] == full[i],
{
}

} // verus!
