//! The one error a reconciliation pass itself can raise.
//!
//! A transport failure or an exposition-encoding failure happens outside
//! this crate, before or after a pass; the bridge code maps those onto
//! its own error type. A response of an unexpected variant is not an
//! error at all: it reconciles as "nothing changed this cycle".

use vstd::prelude::*;

verus! {

/// Why a reconciliation pass was refused.
#[derive(Clone, Copy, Debug, PartialEq, Eq, Structural)]
pub enum Error {
    /// A labeled update did not fit the label set declared for the
    /// metric: a wedge vector longer than the twelve declared wedges, or
    /// a reported device-info block with an identity label missing. This
    /// means the device's data shape has drifted from the catalog; the
    /// pass is refused loudly rather than papered over.
    LabelCardinality,
}

} // verus!
