//! The sample domain: metric values as 64-bit patterns.
//!
//! Every metric value that crosses the crate boundary is a `Sample`: the
//! IEEE-754 binary64 bit pattern of the device-reported reading, carried
//! as a `u64`. The bridge code outside this crate converts a reading to
//! its bit pattern on the way in and back on the way out, so values pass
//! through the engine unchanged bit for bit.
//!
//! The engine itself never does arithmetic on readings; all it needs is
//! an order, to detect counter rollback. `sample_key` gives that order:
//! the sign-magnitude interpretation of the bit pattern, under which two
//! patterns compare exactly as the readings they encode (the two zero
//! patterns share the key 0, and every negative reading sits below every
//! non-negative one).

use vstd::prelude::*;

verus! {

/// A metric value: the binary64 bit pattern of a device reading.
pub type Sample = u64;

/// The high (sign) bit of a sample.
pub const SIGN_BIT: u64 = 0x8000_0000_0000_0000;

/// The sample exposing the reading one, as an alert flag set to true is.
pub const SAMPLE_ONE: Sample = 0x3FF0_0000_0000_0000;

/// The sample exposing the reading zero; also every metric's initial value.
pub const SAMPLE_ZERO: Sample = 0;

/// The position of a sample in the order of the readings: the magnitude
/// bits, negated when the sign bit is set. Both zero patterns map to 0.
pub open spec fn sample_key(a: Sample) -> int {
    if a >= SIGN_BIT {
        -((a - SIGN_BIT) as int)
    } else {
        a as int
    }
}

/// Whether the reading encoded by `a` is strictly below the one encoded
/// by `b`.
pub open spec fn spec_sample_lt(a: Sample, b: Sample) -> bool {
    sample_key(a) < sample_key(b)
}

/// Compares two samples as the readings they encode.
pub fn sample_lt(a: Sample, b: Sample) -> (r: bool)
    ensures
        r == spec_sample_lt(a, b),
{
    let a_neg = a >= SIGN_BIT;
    let b_neg = b >= SIGN_BIT;
    if a_neg != b_neg {
        // One key is <= 0 and the other >= 0; they tie only when both
        // patterns are a zero.
        a_neg && !(a == SIGN_BIT && b == 0)
    } else if a_neg {
        // Both negative: larger magnitude means smaller reading.
        a > b
    } else {
        a < b
    }
}

/// The gauge value an alert flag coerces to: one for true, zero for false.
pub open spec fn spec_flag_sample(v: bool) -> Sample {
    if v {
        SAMPLE_ONE
    } else {
        SAMPLE_ZERO
    }
}

/// Coerces an alert flag to its gauge value: exactly one or exactly zero,
/// never anything in between.
pub fn flag_sample(v: bool) -> (r: Sample)
    ensures
        r == spec_flag_sample(v),
{
    if v {
        SAMPLE_ONE
    } else {
        SAMPLE_ZERO
    }
}

} // verus!
