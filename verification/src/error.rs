use vstd::prelude::*;

verus! {

/// Why a paint pass stopped early.
///
/// No error is recovered inside this crate: the caller discards the frame
/// and retries on the next tick.
#[derive(Clone, Copy, Debug, PartialEq, Eq, Structural)]
pub enum PaintError {
    /// The tab bar height was queried before the host had computed it.
    MetricUnavailable,
    /// The quad sink refused an emission because it is at capacity.
    SinkFull,
}

} // verus!
